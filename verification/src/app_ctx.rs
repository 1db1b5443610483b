//! How the recorded working directory is chosen.
use vstd::prelude::*;

verus! {

/// The working directory as it is recorded: `$PWD` when the shell exported it, which
/// keeps symbolic links as the user typed them; otherwise the physical working
/// directory; and the empty string when neither could be read.
pub fn recorded_cwd(pwd: Option<String>, physical: Option<String>) -> (r: String)
    ensures
        r@ == match pwd {
            Some(p) => p@,
            None => match physical {
                Some(d) => d@,
                None => Seq::<char>::empty(),
            },
        },
{
    match pwd {
        Some(p) => p,
        None => match physical {
            Some(d) => d,
            None => String::new(),
        },
    }
}

} // verus!
