//! Translating the names of the bot's commands.
//!
//! A command is known by its identifying name. A bundle that has a message
//! of that name translates the command: the message's value is the
//! command's name, its attribute `description` the description, and for a
//! parameter `p` the attributes `p` and `p-description` are its name and
//! description. A choice of a parameter is translated by the message named
//! like the choice. A bundle without a message for a command leaves that
//! command alone; a bundle that has the message must have all the rest.

use crate::localization::bundle_keys;
use crate::localization::bundle_text;
use crate::localization::Bundle;
use crate::localization::Locales;
use vstd::prelude::*;
use vstd::string::*;

verus! {

/// What of a command is named: the command, or one of its parameters, or a
/// choice of a parameter, each by its position.
#[derive(Debug, Clone, Copy, PartialEq, Eq, Structural)]
pub enum Target {
    CommandName,
    CommandDescription,
    ParameterName(usize),
    ParameterDescription(usize),
    Choice(usize, usize),
}

/// The names of a parameter that translations are looked up by.
#[derive(Debug, Clone)]
pub struct ParameterNames {
    pub name: String,
    pub choices: Vec<String>,
}

/// The names of a command that translations are looked up by.
#[derive(Debug)]
pub struct CommandNames {
    pub identifying_name: String,
    pub parameters: Vec<ParameterNames>,
    pub subcommands: Vec<CommandNames>,
}

/// One translated text, and where it belongs: `path` leads to the command,
/// by position, from the top level down through the subcommands.
#[derive(Debug, Clone)]
pub struct Localization {
    pub path: Vec<usize>,
    pub target: Target,
    pub locale: String,
    pub text: String,
}

/// A [`Localization`], as plain values.
pub struct LocalizationView {
    pub path: Seq<usize>,
    pub target: Target,
    pub locale: Seq<char>,
    pub text: Seq<char>,
}

impl View for Localization {
    type V = LocalizationView;

    open spec fn view(&self) -> LocalizationView {
        LocalizationView { path: self.path@, target: self.target, locale: self.locale@, text: self.text@ }
    }
}

/// A text that a bundle should have had: the bundle translates the command
/// at `path`, but not this part of it.
#[derive(Debug, Clone)]
pub struct Missing {
    pub path: Vec<usize>,
    pub target: Target,
    pub locale: String,
}

/// A [`Missing`], as plain values.
pub struct MissingView {
    pub path: Seq<usize>,
    pub target: Target,
    pub locale: Seq<char>,
}

impl View for Missing {
    type V = MissingView;

    open spec fn view(&self) -> MissingView {
        MissingView { path: self.path@, target: self.target, locale: self.locale@ }
    }
}

/// The views of a list of translations.
pub open spec fn views(list: Seq<Localization>) -> Seq<LocalizationView> {
    Seq::new(list.len(), |i: int| list[i]@)
}

/// Whether what was computed is what was specified.
pub open spec fn agrees(computed: Result<Vec<Localization>, Missing>, wanted: Result<
    Seq<LocalizationView>,
    MissingView,
>) -> bool {
    match wanted {
        Ok(list) => computed matches Ok(made) && views(made@) == list,
        Err(missing) => computed matches Err(found) && found@ == missing,
    }
}

/// One outcome after another: the first failure, or all the texts.
pub open spec fn then(
    first: Result<Seq<LocalizationView>, MissingView>,
    second: Result<Seq<LocalizationView>, MissingView>,
) -> Result<Seq<LocalizationView>, MissingView> {
    match first {
        Err(missing) => Err(missing),
        Ok(head) => match second {
            Err(missing) => Err(missing),
            Ok(tail) => Ok(head + tail),
        },
    }
}

/// The text that `bundle` has for `target`, which it must have.
pub open spec fn required(
    bundle: Bundle,
    locale: Seq<char>,
    path: Seq<usize>,
    target: Target,
    id: Seq<char>,
    attribute: Option<Seq<char>>,
) -> Result<Seq<LocalizationView>, MissingView> {
    if bundle_keys(bundle).contains((id, attribute)) {
        Ok(seq![LocalizationView { path, target, locale, text: bundle_text(bundle, id, attribute) }])
    } else {
        Err(MissingView { path, target, locale })
    }
}

/// The texts of the choices of a parameter, from choice `from` on.
pub open spec fn choices_spec(
    bundle: Bundle,
    locale: Seq<char>,
    path: Seq<usize>,
    parameter: int,
    choices: Seq<String>,
    from: int,
) -> Result<Seq<LocalizationView>, MissingView>
    decreases choices.len() - from,
{
    if from < 0 || from >= choices.len() {
        Ok(Seq::empty())
    } else {
        then(
            required(bundle, locale, path, Target::Choice(parameter as usize, from as usize), choices[from]@, None),
            choices_spec(bundle, locale, path, parameter, choices, from + 1),
        )
    }
}

/// The attribute that holds the description of a parameter.
pub open spec fn description_of(parameter: Seq<char>) -> Seq<char> {
    parameter + "-description"@
}

/// The texts of one parameter: its name, its description, its choices.
pub open spec fn parameter_spec(
    bundle: Bundle,
    locale: Seq<char>,
    path: Seq<usize>,
    command: Seq<char>,
    index: int,
    parameter: ParameterNames,
) -> Result<Seq<LocalizationView>, MissingView> {
    then(
        required(bundle, locale, path, Target::ParameterName(index as usize), command, Some(parameter.name@)),
        then(
            required(
                bundle,
                locale,
                path,
                Target::ParameterDescription(index as usize),
                command,
                Some(description_of(parameter.name@)),
            ),
            choices_spec(bundle, locale, path, index, parameter.choices@, 0),
        ),
    )
}

/// The texts of the parameters of a command, from parameter `from` on.
pub open spec fn parameters_spec(
    bundle: Bundle,
    locale: Seq<char>,
    path: Seq<usize>,
    command: Seq<char>,
    parameters: Seq<ParameterNames>,
    from: int,
) -> Result<Seq<LocalizationView>, MissingView>
    decreases parameters.len() - from,
{
    if from < 0 || from >= parameters.len() {
        Ok(Seq::empty())
    } else {
        then(
            parameter_spec(bundle, locale, path, command, from, parameters[from]),
            parameters_spec(bundle, locale, path, command, parameters, from + 1),
        )
    }
}

/// The texts that one bundle has for one command: none where the bundle
/// has no message for the command, else all of them.
pub open spec fn in_bundle_spec(bundle: Bundle, locale: Seq<char>, path: Seq<usize>, command: CommandNames) -> Result<
    Seq<LocalizationView>,
    MissingView,
> {
    let id = command.identifying_name@;
    if !bundle_keys(bundle).contains((id, None)) {
        Ok(Seq::empty())
    } else {
        then(
            required(bundle, locale, path, Target::CommandName, id, None),
            then(
                required(bundle, locale, path, Target::CommandDescription, id, Some("description"@)),
                parameters_spec(bundle, locale, path, id, command.parameters@, 0),
            ),
        )
    }
}

/// The texts that the bundles have for one command, from bundle `from` on.
pub open spec fn command_spec(bundles: Seq<(String, Bundle)>, path: Seq<usize>, command: CommandNames, from: int) -> Result<
    Seq<LocalizationView>,
    MissingView,
>
    decreases bundles.len() - from,
{
    if from < 0 || from >= bundles.len() {
        Ok(Seq::empty())
    } else {
        then(
            in_bundle_spec(bundles[from].1, bundles[from].0@, path, command),
            command_spec(bundles, path, command, from + 1),
        )
    }
}

/// The texts of a command and of everything below it: the subcommands
/// first, then the command itself.
pub open spec fn subtree_spec(bundles: Seq<(String, Bundle)>, path: Seq<usize>, command: CommandNames) -> Result<
    Seq<LocalizationView>,
    MissingView,
>
    decreases command, 0nat,
{
    then(tree_spec(bundles, path, command.subcommands@, 0), command_spec(bundles, path, command, 0))
}

/// The texts of the commands at `path`, from command `from` on, each with
/// everything below it.
pub open spec fn tree_spec(bundles: Seq<(String, Bundle)>, path: Seq<usize>, commands: Seq<CommandNames>, from: int) -> Result<
    Seq<LocalizationView>,
    MissingView,
>
    decreases commands, commands.len() - from,
{
    if from < 0 || from >= commands.len() {
        Ok(Seq::empty())
    } else {
        then(
            subtree_spec(bundles, path.push(from as usize), commands[from]),
            tree_spec(bundles, path, commands, from + 1),
        )
    }
}

/// Chaining outcomes does not depend on how they are grouped.
pub proof fn lemma_then_is_associative(
    first: Result<Seq<LocalizationView>, MissingView>,
    second: Result<Seq<LocalizationView>, MissingView>,
    third: Result<Seq<LocalizationView>, MissingView>,
)
    ensures
        then(then(first, second), third) == then(first, then(second, third)),
{
    if let Ok(head) = first {
        if let Ok(middle) = second {
            if let Ok(tail) = third {
                assert((head + middle) + tail =~= head + (middle + tail));
            }
        }
    }
}

/// Chaining with nothing changes nothing.
pub proof fn lemma_then_nothing(outcome: Result<Seq<LocalizationView>, MissingView>)
    ensures
        then(outcome, Ok(Seq::empty())) == outcome,
        then(Ok(Seq::empty()), outcome) == outcome,
{
    if let Ok(list) = outcome {
        assert(list + Seq::<LocalizationView>::empty() =~= list);
        assert(Seq::<LocalizationView>::empty() + list =~= list);
    }
}

/// What was gathered so far, followed by what is still to come.
spec fn so_far(made: Seq<Localization>, rest: Result<Seq<LocalizationView>, MissingView>) -> Result<
    Seq<LocalizationView>,
    MissingView,
> {
    then(Ok(views(made)), rest)
}

/// Gathering `more` after `made`, with `rest` still to come, is gathering
/// `made` with `more` and `rest` to come.
proof fn lemma_gathered(
    made: Seq<Localization>,
    more: Seq<Localization>,
    rest: Result<Seq<LocalizationView>, MissingView>,
)
    ensures
        so_far(made + more, rest) == so_far(made, then(Ok(views(more)), rest)),
{
    assert(views(made + more) =~= views(made) + views(more));
    lemma_then_is_associative(Ok(views(made)), Ok(views(more)), rest);
}

/// Looks up a text that the bundle must have; see [`required`].
fn require(
    bundle: &Bundle,
    locale: &str,
    path: &Vec<usize>,
    target: Target,
    id: &str,
    attribute: Option<&str>,
) -> (found: Result<Vec<Localization>, Missing>)
    ensures
        agrees(
            found,
            required(
                *bundle,
                locale@,
                path@,
                target,
                crate::localization::key_of(id@, attribute).0,
                crate::localization::key_of(id@, attribute).1,
            ),
        ),
{
    match Locales::format(bundle, id, attribute, None) {
        Some(text) => {
            let mut found: Vec<Localization> = Vec::new();
            found.push(Localization { path: path.clone(), target, locale: locale.to_owned(), text });
            assert(views(found@) =~= seq![found@[0]@]);
            Ok(found)
        },
        None => Err(Missing { path: path.clone(), target, locale: locale.to_owned() }),
    }
}

/// The texts of the choices of parameter `parameter`; see [`choices_spec`].
fn choice_texts(bundle: &Bundle, locale: &str, path: &Vec<usize>, parameter: usize, choices: &Vec<String>) -> (found:
    Result<Vec<Localization>, Missing>)
    ensures
        agrees(found, choices_spec(*bundle, locale@, path@, parameter as int, choices@, 0)),
{
    let ghost whole = choices_spec(*bundle, locale@, path@, parameter as int, choices@, 0);
    let mut made: Vec<Localization> = Vec::new();
    let mut index: usize = 0;
    proof {
        lemma_then_nothing(whole);
        assert(views(made@) =~= Seq::empty());
    }
    while index < choices.len()
        invariant
            index <= choices@.len(),
            whole == choices_spec(*bundle, locale@, path@, parameter as int, choices@, 0),
            whole == so_far(made@, choices_spec(*bundle, locale@, path@, parameter as int, choices@, index as int)),
        decreases choices@.len() - index,
    {
        let ghost rest = choices_spec(*bundle, locale@, path@, parameter as int, choices@, index as int + 1);
        let ghost item = required(
            *bundle,
            locale@,
            path@,
            Target::Choice(parameter, index),
            choices@[index as int]@,
            None,
        );
        assert(choices_spec(*bundle, locale@, path@, parameter as int, choices@, index as int) == then(item, rest));
        match require(bundle, locale, path, Target::Choice(parameter, index), choices[index].as_str(), None) {
            Ok(mut more) => {
                proof {
                    lemma_gathered(made@, more@, rest);
                }
                made.append(&mut more);
            },
            Err(missing) => {
                return Err(missing);
            },
        }
        index = index + 1;
    }
    proof {
        lemma_then_nothing(Ok(views(made@)));
    }
    Ok(made)
}

/// The texts of one parameter; see [`parameter_spec`].
fn parameter_texts(
    bundle: &Bundle,
    locale: &str,
    path: &Vec<usize>,
    command: &str,
    index: usize,
    parameter: &ParameterNames,
) -> (found: Result<Vec<Localization>, Missing>)
    ensures
        agrees(found, parameter_spec(*bundle, locale@, path@, command@, index as int, *parameter)),
{
    let mut made = match require(
        bundle,
        locale,
        path,
        Target::ParameterName(index),
        command,
        Some(parameter.name.as_str()),
    ) {
        Ok(made) => made,
        Err(missing) => {
            return Err(missing);
        },
    };
    let attribute = parameter.name.clone().concat("-description");
    let mut described = match require(
        bundle,
        locale,
        path,
        Target::ParameterDescription(index),
        command,
        Some(attribute.as_str()),
    ) {
        Ok(described) => described,
        Err(missing) => {
            return Err(missing);
        },
    };
    let mut chosen = match choice_texts(bundle, locale, path, index, &parameter.choices) {
        Ok(chosen) => chosen,
        Err(missing) => {
            return Err(missing);
        },
    };
    proof {
        assert(views(made@ + described@ + chosen@) =~= views(made@) + (views(described@) + views(chosen@)));
    }
    made.append(&mut described);
    made.append(&mut chosen);
    Ok(made)
}

/// The texts of the parameters of a command; see [`parameters_spec`].
fn parameters_texts(
    bundle: &Bundle,
    locale: &str,
    path: &Vec<usize>,
    command: &str,
    parameters: &Vec<ParameterNames>,
) -> (found: Result<Vec<Localization>, Missing>)
    ensures
        agrees(found, parameters_spec(*bundle, locale@, path@, command@, parameters@, 0)),
{
    let ghost whole = parameters_spec(*bundle, locale@, path@, command@, parameters@, 0);
    let mut made: Vec<Localization> = Vec::new();
    let mut index: usize = 0;
    proof {
        lemma_then_nothing(whole);
        assert(views(made@) =~= Seq::empty());
    }
    while index < parameters.len()
        invariant
            index <= parameters@.len(),
            whole == parameters_spec(*bundle, locale@, path@, command@, parameters@, 0),
            whole == so_far(made@, parameters_spec(*bundle, locale@, path@, command@, parameters@, index as int)),
        decreases parameters@.len() - index,
    {
        let ghost rest = parameters_spec(*bundle, locale@, path@, command@, parameters@, index as int + 1);
        let ghost item = parameter_spec(*bundle, locale@, path@, command@, index as int, parameters@[index as int]);
        assert(parameters_spec(*bundle, locale@, path@, command@, parameters@, index as int) == then(item, rest));
        match parameter_texts(bundle, locale, path, command, index, &parameters[index]) {
            Ok(mut more) => {
                proof {
                    lemma_gathered(made@, more@, rest);
                }
                made.append(&mut more);
            },
            Err(missing) => {
                return Err(missing);
            },
        }
        index = index + 1;
    }
    proof {
        lemma_then_nothing(Ok(views(made@)));
    }
    Ok(made)
}

/// The texts that one bundle has for one command; see [`in_bundle_spec`].
pub fn localize_in(bundle: &Bundle, locale: &str, path: &Vec<usize>, command: &CommandNames) -> (found: Result<
    Vec<Localization>,
    Missing,
>)
    ensures
        agrees(found, in_bundle_spec(*bundle, locale@, path@, *command)),
{
    let id = command.identifying_name.as_str();
    let mut made = match require(bundle, locale, path, Target::CommandName, id, None) {
        Ok(made) => made,
        Err(_) => {
            let nothing: Vec<Localization> = Vec::new();
            assert(views(nothing@) =~= Seq::empty());
            return Ok(nothing);
        },
    };
    let mut described = match require(bundle, locale, path, Target::CommandDescription, id, Some("description")) {
        Ok(described) => described,
        Err(missing) => {
            return Err(missing);
        },
    };
    let mut parameters = match parameters_texts(bundle, locale, path, id, &command.parameters) {
        Ok(parameters) => parameters,
        Err(missing) => {
            return Err(missing);
        },
    };
    proof {
        assert(views(made@ + described@ + parameters@) =~= views(made@) + (views(described@) + views(
            parameters@,
        )));
    }
    made.append(&mut described);
    made.append(&mut parameters);
    Ok(made)
}

impl Locales {
    /// The texts that the bundles have for one command, bundle after
    /// bundle; see [`command_spec`].
    pub fn localize(&self, path: &Vec<usize>, command: &CommandNames) -> (found: Result<Vec<Localization>, Missing>)
        ensures
            agrees(found, command_spec(self.bundles(), path@, *command, 0)),
    {
        let ghost whole = command_spec(self.bundles@, path@, *command, 0);
        let mut made: Vec<Localization> = Vec::new();
        let mut index: usize = 0;
        proof {
            lemma_then_nothing(whole);
            assert(views(made@) =~= Seq::empty());
        }
        while index < self.bundles.len()
            invariant
                index <= self.bundles@.len(),
                whole == command_spec(self.bundles@, path@, *command, 0),
                whole == so_far(made@, command_spec(self.bundles@, path@, *command, index as int)),
            decreases self.bundles@.len() - index,
        {
            let ghost rest = command_spec(self.bundles@, path@, *command, index as int + 1);
            let ghost item = in_bundle_spec(
                self.bundles@[index as int].1,
                self.bundles@[index as int].0@,
                path@,
                *command,
            );
            assert(command_spec(self.bundles@, path@, *command, index as int) == then(item, rest));
            match localize_in(&self.bundles[index].1, self.bundles[index].0.as_str(), path, command) {
                Ok(mut more) => {
                    proof {
                        lemma_gathered(made@, more@, rest);
                    }
                    made.append(&mut more);
                },
                Err(missing) => {
                    return Err(missing);
                },
            }
            index = index + 1;
        }
        proof {
            lemma_then_nothing(Ok(views(made@)));
        }
        Ok(made)
    }

    /// The texts of the commands at `path`, each with everything below it;
    /// see [`tree_spec`].
    pub fn apply_at(&self, path: &Vec<usize>, commands: &Vec<CommandNames>) -> (found: Result<
        Vec<Localization>,
        Missing,
    >)
        ensures
            agrees(found, tree_spec(self.bundles(), path@, commands@, 0)),
        decreases commands,
    {
        let ghost whole = tree_spec(self.bundles@, path@, commands@, 0);
        let mut made: Vec<Localization> = Vec::new();
        let mut index: usize = 0;
        proof {
            lemma_then_nothing(whole);
            assert(views(made@) =~= Seq::empty());
        }
        while index < commands.len()
            invariant
                index <= commands@.len(),
                whole == tree_spec(self.bundles@, path@, commands@, 0),
                whole == so_far(made@, tree_spec(self.bundles@, path@, commands@, index as int)),
            decreases commands@.len() - index,
        {
            let ghost rest = tree_spec(self.bundles@, path@, commands@, index as int + 1);
            let mut below = path.clone();
            below.push(index);
            let command = &commands[index];
            let ghost under = tree_spec(self.bundles@, below@, command.subcommands@, 0);
            let ghost itself = command_spec(self.bundles@, below@, *command, 0);
            assert(below@ == path@.push(index));
            assert(subtree_spec(self.bundles@, below@, *command) == then(under, itself));
            assert(tree_spec(self.bundles@, path@, commands@, index as int) == then(then(under, itself), rest));
            let mut more = match self.apply_at(&below, &command.subcommands) {
                Ok(more) => more,
                Err(missing) => {
                    return Err(missing);
                },
            };
            let mut own = match self.localize(&below, command) {
                Ok(own) => own,
                Err(missing) => {
                    return Err(missing);
                },
            };
            proof {
                assert(views(more@ + own@) =~= views(more@) + views(own@));
                lemma_gathered(made@, more@ + own@, rest);
                assert(made@ + more@ + own@ =~= made@ + (more@ + own@));
            }
            made.append(&mut more);
            made.append(&mut own);
            index = index + 1;
        }
        proof {
            lemma_then_nothing(Ok(views(made@)));
        }
        Ok(made)
    }

    /// Translates `commands` and everything below them into every locale
    /// that knows them.
    ///
    /// Returns the texts in the order in which they were found: for each
    /// command its subcommands first, then the command, bundle after
    /// bundle. A bundle that translates a command but lacks one of its
    /// texts fails the whole, and is named.
    pub fn apply(&self, commands: &Vec<CommandNames>) -> (found: Result<Vec<Localization>, Missing>)
        ensures
            agrees(found, tree_spec(self.bundles(), Seq::empty(), commands@, 0)),
    {
        let top: Vec<usize> = Vec::new();
        self.apply_at(&top, commands)
    }
}

} // verus!
