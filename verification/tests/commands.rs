use fluent::FluentResource;
use text_to_speech_rs::localization::commands::{localize_in, CommandNames, Localization, ParameterNames, Target};
use text_to_speech_rs::localization::{Bundle, LocaleSearchPolicy, Locales};

fn bundle(locale: &str, source: &str) -> Bundle {
    let mut bundle = Bundle::new_concurrent(vec![locale.parse().expect("must be valid")]);
    bundle
        .add_resource(FluentResource::try_new(source.to_owned()).expect("must parse"))
        .expect("must add resource");
    bundle
}

fn locales(bundles: Vec<(&str, &str)>) -> Locales {
    let bundles = bundles.into_iter().map(|(locale, source)| (locale.to_string(), bundle(locale, source))).collect();
    Locales::new_with_bundles(LocaleSearchPolicy::new_exact("en-US".to_string()), bundles).ok().unwrap()
}

fn command(name: &str, parameters: Vec<ParameterNames>, subcommands: Vec<CommandNames>) -> CommandNames {
    CommandNames { identifying_name: name.to_string(), parameters, subcommands }
}

fn parameter(name: &str, choices: &[&str]) -> ParameterNames {
    ParameterNames { name: name.to_string(), choices: choices.iter().map(|choice| choice.to_string()).collect() }
}

fn flat(found: Vec<Localization>) -> Vec<(Vec<usize>, Target, String, String)> {
    found.into_iter().map(|entry| (entry.path, entry.target, entry.locale, entry.text)).collect()
}

const JOIN_EN: &str = "join = join\n    .description = Start reading\n";
const CHOOSE_EN: &str = "voice-user-choose = choose\n    .description = Choose your voice\n    .name = name\n    .name-description = The voice\nsoft = Soft\n";

#[test]
fn a_command_gets_its_name_and_description() {
    let found = locales(vec![("en-US", JOIN_EN)]).apply(&vec![command("join", vec![], vec![])]).ok().unwrap();
    assert_eq!(
        flat(found),
        vec![
            (vec![0], Target::CommandName, "en-US".to_string(), "join".to_string()),
            (vec![0], Target::CommandDescription, "en-US".to_string(), "Start reading".to_string()),
        ]
    );
}

#[test]
fn parameters_and_choices_follow_the_command() {
    let commands = vec![command("voice-user-choose", vec![parameter("name", &["soft"])], vec![])];
    let found = locales(vec![("en-US", CHOOSE_EN)]).apply(&commands).ok().unwrap();
    assert_eq!(
        flat(found),
        vec![
            (vec![0], Target::CommandName, "en-US".to_string(), "choose".to_string()),
            (vec![0], Target::CommandDescription, "en-US".to_string(), "Choose your voice".to_string()),
            (vec![0], Target::ParameterName(0), "en-US".to_string(), "name".to_string()),
            (vec![0], Target::ParameterDescription(0), "en-US".to_string(), "The voice".to_string()),
            (vec![0], Target::Choice(0, 0), "en-US".to_string(), "Soft".to_string()),
        ]
    );
}

#[test]
fn subcommands_come_before_their_command_and_carry_their_path() {
    let source = "voice = voice\n    .description = Voices\nuser = user\n    .description = Yours\n";
    let commands = vec![command("join", vec![], vec![]), command("voice", vec![], vec![command("user", vec![], vec![])])];
    let found = locales(vec![("en-US", source)]).apply(&commands).ok().unwrap();
    assert_eq!(
        flat(found),
        vec![
            (vec![1, 0], Target::CommandName, "en-US".to_string(), "user".to_string()),
            (vec![1, 0], Target::CommandDescription, "en-US".to_string(), "Yours".to_string()),
            (vec![1], Target::CommandName, "en-US".to_string(), "voice".to_string()),
            (vec![1], Target::CommandDescription, "en-US".to_string(), "Voices".to_string()),
        ]
    );
}

#[test]
fn every_bundle_that_knows_the_command_translates_it() {
    let japanese = "join = sanka\n    .description = Yomiage\n";
    let found = locales(vec![("en-US", JOIN_EN), ("ja", japanese), ("fr", "other = x")])
        .apply(&vec![command("join", vec![], vec![])])
        .ok()
        .unwrap();
    let locales_found: Vec<(String, String)> = found.into_iter().map(|entry| (entry.locale, entry.text)).collect();
    assert_eq!(
        locales_found,
        vec![
            ("en-US".to_string(), "join".to_string()),
            ("en-US".to_string(), "Start reading".to_string()),
            ("ja".to_string(), "sanka".to_string()),
            ("ja".to_string(), "Yomiage".to_string()),
        ]
    );
}

#[test]
fn a_command_without_translation_is_left_alone() {
    let found = locales(vec![("en-US", "other = x")]).apply(&vec![command("join", vec![], vec![])]).ok().unwrap();
    assert!(found.is_empty());
    assert!(locales(vec![("en-US", JOIN_EN)]).apply(&Vec::new()).ok().unwrap().is_empty());
}

#[test]
fn a_missing_description_fails_and_is_named() {
    let missing = locales(vec![("en-US", "join = join\n")]).apply(&vec![command("join", vec![], vec![])]).unwrap_err();
    assert_eq!(missing.path, vec![0]);
    assert_eq!(missing.target, Target::CommandDescription);
    assert_eq!(missing.locale, "en-US");
}

#[test]
fn missing_parameter_texts_fail_in_order() {
    let commands = vec![command("c", vec![parameter("p", &["one", "two"])], vec![])];
    let base = "c = c\n    .description = d\n";
    let check = |source: String, target: Target| {
        let missing = locales(vec![("en-US", &source)]).apply(&commands).unwrap_err();
        assert_eq!(missing.target, target);
        assert_eq!(missing.path, vec![0]);
    };
    check(base.to_string(), Target::ParameterName(0));
    check(format!("{}    .p = p\n", base), Target::ParameterDescription(0));
    check(format!("{}    .p = p\n    .p-description = pd\n", base), Target::Choice(0, 0));
    check(format!("{}    .p = p\n    .p-description = pd\none = One\n", base), Target::Choice(0, 1));
}

#[test]
fn a_failure_below_stops_the_command_above() {
    let source = "voice = voice\n    .description = Voices\nuser = user\n";
    let commands = vec![command("voice", vec![], vec![command("user", vec![], vec![])])];
    let missing = locales(vec![("en-US", source)]).apply(&commands).unwrap_err();
    assert_eq!(missing.path, vec![0, 0]);
    assert_eq!(missing.target, Target::CommandDescription);
}

#[test]
fn one_bundle_can_be_asked_alone() {
    let found = localize_in(&bundle("en-US", JOIN_EN), "en-US", &vec![3, 1], &command("join", vec![], vec![]));
    let found = found.ok().unwrap();
    assert_eq!(found.len(), 2);
    assert_eq!(found[0].path, vec![3, 1]);
    let own = locales(vec![("en-US", JOIN_EN)]).localize(&vec![2], &command("join", vec![], vec![])).ok().unwrap();
    assert_eq!(own.len(), 2);
    assert_eq!(own[1].text, "Start reading");
}
