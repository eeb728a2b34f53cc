//! Telling a weight file by its first bytes.

use vstd::prelude::*;

verus! {

/// The four bytes that open every weight file: `GGUF` in ASCII.
pub open spec fn magic() -> Seq<u8> {
    seq![0x47u8, 0x47u8, 0x55u8, 0x46u8]
}

/// The leading bytes of a file are those of a weight file: there are at
/// least four of them and the first four are the signature.
pub open spec fn is_weight_head(head: Seq<u8>) -> bool {
    head.len() >= 4 && head.take(4) == magic()
}

/// No file of fewer than four bytes is a weight file, the empty one least of
/// all; a longer one is a weight file exactly when it begins `G`, `G`, `U`, `F`.
pub proof fn lemma_weight_head(head: Seq<u8>)
    ensures
        head.len() < 4 ==> !is_weight_head(head),
        is_weight_head(head) <==> head.len() >= 4 && head[0] == 0x47 && head[1] == 0x47 && head[2]
            == 0x55 && head[3] == 0x46,
{
    if head.len() >= 4 {
        let first = head.take(4);
        assert(first[0] == head[0] && first[1] == head[1] && first[2] == head[2] && first[3]
            == head[3]);
        if head[0] == 0x47 && head[1] == 0x47 && head[2] == 0x55 && head[3] == 0x46 {
            assert(first =~= magic());
        }
    }
}

/// Whether a file that starts with `head` is a weight file. Only the first
/// four bytes are looked at; a file too short to hold them is none.
pub fn is_gguf_file(head: &[u8]) -> (b: bool)
    ensures
        b == is_weight_head(head@),
{
    if head.len() < 4 {
        return false;
    }
    let b: bool = head[0] == 0x47 && head[1] == 0x47 && head[2] == 0x55 && head[3] == 0x46;
    proof {
        if b {
            assert(head@.take(4) =~= magic());
        } else {
            assert(head@.take(4)[0] == head@[0]);
            assert(head@.take(4)[1] == head@[1]);
            assert(head@.take(4)[2] == head@[2]);
            assert(head@.take(4)[3] == head@[3]);
        }
    }
    b
}

} // verus!
