use vstd::prelude::*;
use vstd::string::*;

verus! {

/// A proof event row as the dashboard's API reports it.
#[allow(non_snake_case)]
#[derive(Clone, Debug)]
pub struct ProofEvent {
    pub proofId: String,
    pub modelId: String,
    pub submitter: String,
    pub valid: bool,
}

/// Shortens an address for display: the first six and the last four
/// characters around an ellipsis, or the whole text when it is short.
pub fn short_addr(addr: &str) -> (r: String)
    ensures
        addr@.len() > 12 ==> r@ == addr@.subrange(0, 6) + "..."@ + addr@.subrange(
            addr@.len() - 4,
            addr@.len() as int,
        ),
        addr@.len() <= 12 ==> r@ == addr@,
{
    let n = addr.unicode_len();
    if n > 12 {
        let head = addr.substring_char(0, 6);
        let tail = addr.substring_char(n - 4, n);
        let mut out = String::from_str(head);
        out.append("...");
        out.append(tail);
        out
    } else {
        String::from_str(addr)
    }
}

} // verus!
