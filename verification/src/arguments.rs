//! The argument accessor: the one startup argument of the process.

use vstd::prelude::*;
use javy_plugin_api::javy::quickjs::Error;
use crate::engine::unknown_error;
use crate::error::BridgeError;

verus! {

/// The startup argument carried by an argument vector: the single positional argument
/// behind the program name. A vector of any other length carries none.
pub open spec fn startup_argument(argv: Seq<String>) -> Option<Seq<char>> {
    if argv.len() == 2 {
        Some(argv[1]@)
    } else {
        None
    }
}

/// A process started as `program` with the arguments `positional` has a startup argument
/// exactly when it was given one positional argument, and then it is that argument,
/// whatever it holds. Without even a program name there is none.
pub proof fn lemma_one_positional_argument(program: String, positional: Seq<String>)
    ensures
        startup_argument(seq![program] + positional) == if positional.len() == 1 {
            Some(positional[0]@)
        } else {
            None::<Seq<char>>
        },
        startup_argument(Seq::<String>::empty()) == None::<Seq<char>>,
{
}

/// Hands out the startup argument, verbatim, or fails with
/// [`BridgeError::InvalidArgumentCount`] when the process was started with no positional
/// argument or with more than one.
pub fn policy_action(argv: &Vec<String>) -> (res: Result<String, BridgeError>)
    ensures
        match startup_argument(argv@) {
            Some(argument) => res matches Ok(given) && given@ == argument,
            None => res == Err::<String, BridgeError>(BridgeError::InvalidArgumentCount),
        },
{
    if argv.len() != 2 {
        return Err(BridgeError::InvalidArgumentCount);
    }
    Ok(argv[1].clone())
}

/// The argument accessor as the script sees it: asks `arguments` for the argument vector
/// and hands out its startup argument, with the failure raised as an error of the engine.
pub(crate) fn script_policy_action<A: Fn() -> Vec<String>>(arguments: &A) -> (res: Result<
    String,
    Error,
>)
    requires
        call_requires(*arguments, ()),
    ensures
        exists|argv: Vec<String>| #[trigger]
            call_ensures(*arguments, (), argv) && match startup_argument(argv@) {
                Some(argument) => res matches Ok(given) && given@ == argument,
                None => res is Err,
            },
{
    let argv = arguments();
    match policy_action(&argv) {
        Ok(argument) => Ok(argument),
        Err(_) => Err(unknown_error()),
    }
}

} // verus!
