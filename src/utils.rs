//! Formatting of error chains.

use vstd::prelude::*;

verus! {

/// The text of a chain of error messages, outermost first, joined by ": ".
pub open spec fn chain_text(links: Seq<String>) -> Seq<char>
    decreases links.len(),
{
    if links.len() == 0 {
        seq![]
    } else if links.len() == 1 {
        links[0]@
    } else {
        chain_text(links.drop_last()) + seq![':', ' '] + links.last()@
    }
}

/// The messages of an error and of each of its causes in turn, outermost
/// first.
#[derive(Debug)]
pub struct ErrorChain(pub Vec<String>);

impl ErrorChain {
    /// Each message joined to the next by ": ".
    pub fn to_string(&self) -> (r: String)
        ensures
            r@ == chain_text(self.0@),
    {
        let links = &self.0;
        let n = links.len();
        let mut r = String::new();
        for i in 0..n
            invariant
                n == links@.len(),
                r@ == chain_text(links@.take(i as int)),
        {
            let ghost before = r@;
            if i > 0 {
                proof {
                    reveal_strlit(": ");
                }
                r.append(": ");
                assert(r@ =~= before + seq![':', ' ']);
            }
            r.append(links[i].as_str());
            proof {
                let t = links@.take(i + 1);
                assert(t.drop_last() =~= links@.take(i as int));
                assert(t.last() == links@[i as int]);
                assert(t.len() == i + 1);
                assert(r@ =~= chain_text(t));
            }
        }
        assert(links@.take(n as int) =~= links@);
        r
    }
}

/// A single error reads as its own message, and a cause adds ": " and its
/// message to the text of the errors above it.
pub proof fn lemma_chain_text(links: Seq<String>, cause: String)
    ensures
        chain_text(seq![cause]) == cause@,
        links.len() > 0 ==> chain_text(links.push(cause)) == chain_text(links) + seq![':', ' ']
            + cause@,
{
    if links.len() > 0 {
        assert(links.push(cause).drop_last() =~= links);
    }
}

} // verus!
