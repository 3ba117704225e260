//! The table of variables that a path spec may refer to, and their expansion.
use crate::error::ResolveError;
use crate::error::ResolveFailure;
use crate::error::outcome_view;
use vstd::prelude::*;

verus! {

/// One variable of an environment.
#[derive(Clone, Debug)]
pub struct Variable {
    pub name: String,
    pub value: String,
}

/// A table of variables. Where a name was set more than once, the value set
/// last counts.
#[derive(Clone, Debug)]
pub struct Environment {
    pub vars: Vec<Variable>,
}

/// The mapping from names to values that a list of variables stands for.
pub open spec fn bindings(vars: Seq<Variable>) -> Map<Seq<char>, Seq<char>>
    decreases vars.len(),
{
    if vars.len() == 0 {
        Map::empty()
    } else {
        bindings(vars.drop_last()).insert(vars.last().name@, vars.last().value@)
    }
}

/// What looking `name` up in `table` gives.
pub open spec fn lookup(table: Map<Seq<char>, Seq<char>>, name: Seq<char>) -> Option<Seq<char>> {
    if table.contains_key(name) {
        Some(table[name])
    } else {
        None
    }
}

/// What `shellexpand::env_with_context` returns for `input` when every lookup
/// is answered from `table` and a name that `table` lacks is answered with an
/// error: the expanded text, or the name of the variable whose lookup failed.
pub uninterp spec fn expansion(input: Seq<char>, table: Map<Seq<char>, Seq<char>>) -> Result<
    Seq<char>,
    Seq<char>,
>;

/// Whether `c` is an ASCII letter, an ASCII digit or an underscore: a
/// character that a variable's name may hold where it is written without
/// braces.
pub open spec fn is_name_char(c: char) -> bool {
    ('a' <= c && c <= 'z') || ('A' <= c && c <= 'Z') || ('0' <= c && c <= '9') || c == '_'
}

/// Whether `input` is one reference and nothing else: a `$`, then one or more
/// name characters up to its end.
pub open spec fn is_plain_reference(input: Seq<char>) -> bool {
    &&& input.len() > 1
    &&& input[0] == '$'
    &&& forall|i: int| 1 <= i < input.len() ==> is_name_char(#[trigger] input[i])
}

/// What a plain reference to `name` expands to: the value that `table` gives
/// the name, and a failure that names it where `table` gives none.
pub open spec fn referenced(name: Seq<char>, table: Map<Seq<char>, Seq<char>>) -> Result<
    Seq<char>,
    Seq<char>,
> {
    match lookup(table, name) {
        Some(value) => Ok(value),
        None => Err(name),
    }
}

/// What an expansion handed back, as contracts speak of it.
pub open spec fn expansion_view(expanded: Result<String, String>) -> Result<Seq<char>, Seq<char>> {
    match expanded {
        Ok(text) => Ok(text@),
        Err(name) => Err(name@),
    }
}

/// What expanding the path spec `path` against `table` comes to: the expanded
/// text, or the failure that names the variable and the path spec.
pub open spec fn expanded(path: Seq<char>, table: Map<Seq<char>, Seq<char>>) -> Result<
    Seq<char>,
    ResolveFailure,
> {
    classified(path, expansion(path, table))
}

/// The outcome of an expansion of `path`, with the failure put into its
/// structured form.
pub open spec fn classified(path: Seq<char>, outcome: Result<Seq<char>, Seq<char>>) -> Result<
    Seq<char>,
    ResolveFailure,
> {
    match outcome {
        Ok(text) => Ok(text),
        Err(var_name) => Err(ResolveFailure::EnvExpansion { var_name, path }),
    }
}

impl View for Environment {
    type V = Map<Seq<char>, Seq<char>>;

    open spec fn view(&self) -> Map<Seq<char>, Seq<char>> {
        bindings(self.vars@)
    }
}

impl Environment {
    /// A table without variables.
    pub fn new() -> (env: Environment)
        ensures
            env@ == Map::<Seq<char>, Seq<char>>::empty(),
    {
        Environment { vars: Vec::new() }
    }

    /// Sets `name` to `value`; every other name keeps what it had.
    pub fn set(&mut self, name: &str, value: &str)
        ensures
            final(self)@ == old(self)@.insert(name@, value@),
    {
        let variable = Variable { name: name.to_owned(), value: value.to_owned() };
        proof {
            assert(self.vars@.push(variable).drop_last() =~= self.vars@);
        }
        self.vars.push(variable);
    }

    /// The value of `name`, if the table has one.
    pub fn get(&self, name: &str) -> (value: Option<String>)
        ensures
            match value {
                Some(text) => lookup(self@, name@) == Some(text@),
                None => lookup(self@, name@) is None,
            },
    {
        let key: String = name.to_owned();
        let mut found: Option<String> = None;
        let mut i: usize = 0;
        while i < self.vars.len()
            invariant
                key@ == name@,
                i <= self.vars@.len(),
                match found {
                    Some(text) => lookup(bindings(self.vars@.take(i as int)), name@) == Some(
                        text@,
                    ),
                    None => lookup(bindings(self.vars@.take(i as int)), name@) is None,
                },
            decreases self.vars@.len() - i,
        {
            proof {
                assert(self.vars@.take(i + 1).drop_last() =~= self.vars@.take(i as int));
            }
            if self.vars[i].name == key {
                found = Some(self.vars[i].value.clone());
            }
            i = i + 1;
        }
        proof {
            assert(self.vars@.take(i as int) =~= self.vars@);
        }
        found
    }

    /// Answers one lookup of an expansion: the value of `name`, or an error
    /// where the table has none.
    fn answer(&self, name: &str) -> (reply: Result<Option<String>, ()>)
        ensures
            match reply {
                Ok(Some(text)) => lookup(self@, name@) == Some(text@),
                Ok(None) => false,
                Err(_) => lookup(self@, name@) is None,
            },
    {
        match self.get(name) {
            Some(text) => Ok(Some(text)),
            None => Err(()),
        }
    }
}

/// Calls `shellexpand::env_with_context` on `input`, with `Environment::answer`
/// on `env` as the context. Trusted: the result is what `expansion` names; an
/// input without `$` comes back as it is; an input that is one plain
/// reference, `$` and a name, gives the value of the name, or fails with the
/// name where `env` lacks it; and an error always names a variable that `env`
/// lacks, since the only errors are those of the context.
#[verifier::external_body]
fn expand_with(input: &str, env: &Environment) -> (outcome: Result<String, String>)
    ensures
        expansion_view(outcome) == expansion(input@, env@),
        !input@.contains('$') ==> outcome is Ok && outcome->Ok_0@ == input@,
        is_plain_reference(input@) ==> expansion_view(outcome) == referenced(input@.skip(1), env@),
        outcome is Err ==> lookup(env@, outcome->Err_0@) is None,
{
    match shellexpand::env_with_context(input, |name| env.answer(name)) {
        Ok(text) => Ok(text.into_owned()),
        Err(failure) => Err(failure.var_name),
    }
}

/// Puts the outcome of an expansion of `path` into the library's terms.
pub fn classify_expansion(path: &str, outcome: Result<String, String>) -> (result: Result<
    String,
    ResolveError,
>)
    ensures
        outcome_view(result) == classified(path@, expansion_view(outcome)),
{
    match outcome {
        Ok(text) => Ok(text),
        Err(var_name) => Err(ResolveError::EnvExpansion { var_name, path: path.to_owned() }),
    }
}

/// Replaces every `$NAME` and `${NAME}` in `path` by the value that `env`
/// gives the name. A path spec without `$` is returned as it is. A path spec
/// that is one plain reference becomes the value of the name, and fails where
/// `env` lacks the name: nothing is substituted for it. Every failure carries
/// a name that `env` lacks, and the path spec.
pub fn expand_env(path: &str, env: &Environment) -> (result: Result<String, ResolveError>)
    ensures
        outcome_view(result) == expanded(path@, env@),
        !path@.contains('$') ==> (result matches Ok(text) && text@ == path@),
        is_plain_reference(path@) ==> outcome_view(result) == classified(
            path@,
            referenced(path@.skip(1), env@),
        ),
        result matches Err(error) ==> (error@ matches ResolveFailure::EnvExpansion {
            var_name,
            path: named,
        } && named == path@ && lookup(env@, var_name) is None),
{
    let outcome = expand_with(path, env);
    classify_expansion(path, outcome)
}

} // verus!
