//! Choice among the available cookie files.

use vstd::prelude::*;
use crate::text::{decimal, decimal_string};

verus! {

/// Relies on rand's `Rng::gen_range` over `0..n` with the thread-local
/// generator: an index below `n`; the range must not be empty.
#[verifier::external_body]
fn random_below(n: usize) -> (r: usize)
    requires
        n > 0,
    ensures
        r < n,
{
    rand::Rng::gen_range(&mut rand::thread_rng(), 0..n)
}

/// One of the available cookie files, chosen at random, or none when there
/// are none.
pub fn get_random_cookies(available: &Vec<String>) -> (r: Option<String>)
    ensures
        available@.len() == 0 ==> r is None,
        available@.len() > 0 ==> (r matches Some(c) && exists|i: int|
            0 <= i < available@.len() && c@ == (#[trigger] available@[i])@),
{
    if available.len() == 0 {
        return None;
    }
    let i = random_below(available.len());
    Some(available[i].clone())
}

/// How the status report describes the cookie files in use.
pub fn cookies_label(count: usize) -> (r: String)
    ensures
        count == 0 ==> r@ == "none"@,
        count > 0 ==> r@ == decimal(count as nat) + " files"@,
{
    if count == 0 {
        String::from_str("none")
    } else {
        let mut s = decimal_string(count as u64);
        s.append(" files");
        s
    }
}

} // verus!
