//! Bus topics: a path of segments separated by `/`, such as `msh/2/c/LongFast/!abf849b0`.
use vstd::prelude::*;
use vstd::string::StringSliceAdditionalSpecFns;
use vstd::utf8::{
    is_char_boundary, is_leading_byte_width_1, length_of_first_scalar, pop_first_scalar,
    valid_first_scalar, valid_utf8,
};

verus! {

/// The index of the last `/` in `b`, if there is one.
pub open spec fn last_slash(b: Seq<u8>) -> Option<int>
    decreases b.len(),
{
    if b.len() == 0 {
        None
    } else if b.last() == 0x2f {
        Some(b.len() - 1)
    } else {
        last_slash(b.drop_last())
    }
}

/// The bytes of the last segment of a topic: all that follows its last `/`, or the whole topic
/// where it has none.
pub open spec fn last_segment(b: Seq<u8>) -> Seq<u8> {
    match last_slash(b) {
        Some(i) => b.subrange(i + 1, b.len() as int),
        None => b,
    }
}

proof fn lemma_last_slash_bounds(b: Seq<u8>)
    ensures
        last_slash(b) matches Some(i) ==> 0 <= i < b.len() && b[i] == 0x2f,
    decreases b.len(),
{
    if b.len() > 0 && b.last() != 0x2f {
        lemma_last_slash_bounds(b.drop_last());
    }
}

/// The index of the last `/` in `b`.
pub fn find_last_slash(b: &[u8]) -> (r: Option<usize>)
    ensures
        match last_slash(b@) {
            Some(i) => r == Some(i as usize),
            None => r is None,
        },
        r matches Some(i) ==> i < b@.len() && b@[i as int] == 0x2f && last_slash(b@) == Some(
            i as int,
        ),
{
    proof {
        lemma_last_slash_bounds(b@);
    }
    let mut k: usize = b.len();
    assert(b@.subrange(0, k as int) =~= b@);
    while k > 0
        invariant
            k <= b@.len(),
            last_slash(b@) == last_slash(b@.subrange(0, k as int)),
        decreases k,
    {
        let ghost pre = b@.subrange(0, k as int);
        assert(pre.drop_last() =~= b@.subrange(0, k - 1));
        if b[k - 1] == 0x2f {
            return Some(k - 1);
        }
        k = k - 1;
    }
    None
}

/// Where `b` is valid UTF-8, the position after an ASCII byte is a character boundary.
proof fn lemma_after_ascii_is_boundary(b: Seq<u8>, i: int)
    requires
        valid_utf8(b),
        0 <= i < b.len(),
        b[i] < 0x80,
    ensures
        is_char_boundary(b, i + 1),
    decreases b.len(),
{
    reveal_with_fuel(is_char_boundary, 2);
    let l = length_of_first_scalar(b);
    assert(valid_first_scalar(b));
    let rest = pop_first_scalar(b);
    assert(valid_utf8(rest));
    assert(1 <= l <= b.len());
    assert(rest.len() == b.len() - l);
    if i >= l {
        assert(rest[i - l] == b[i]);
        lemma_after_ascii_is_boundary(rest, i - l);
    } else {
        assert(i == 0 && is_leading_byte_width_1(b[0]));
        assert(l == 1);
    }
}

/// The last segment of a topic, the client identifier that a topic names.
pub fn get_user_id(topic: &str) -> (r: Option<&str>)
    ensures
        r matches Some(s) ==> s.spec_bytes() == last_segment(topic.spec_bytes()),
        valid_utf8(topic.spec_bytes()) ==> r is Some,
{
    let bytes = topic.as_bytes();
    let n = bytes.len();
    match find_last_slash(bytes) {
        None => Some(topic),
        Some(i) => {
            proof {
                if valid_utf8(topic.spec_bytes()) {
                    lemma_after_ascii_is_boundary(topic.spec_bytes(), i as int);
                }
            }
            if topic.is_char_boundary(i + 1) {
                let (_, last) = topic.split_at(i + 1);
                assert(last.spec_bytes() =~= last_segment(topic.spec_bytes()));
                Some(last)
            } else {
                None
            }
        },
    }
}

/// Whether `/c/` stands in `b` at `i`.
pub open spec fn marker_at(b: Seq<u8>, i: int) -> bool {
    0 <= i && i + 3 <= b.len() && b[i] == 0x2f && b[i + 1] == 0x63 && b[i + 2] == 0x2f
}

/// Whether `b` holds `/c/`, the mark of a topic that carries raw packets.
pub open spec fn carries_packets(b: Seq<u8>) -> bool {
    exists|i: int| #[trigger] marker_at(b, i)
}

/// Whether a topic carries raw packets, as opposed to JSON or statistics.
pub fn is_packet_topic(b: &[u8]) -> (r: bool)
    ensures
        r == carries_packets(b@),
{
    let n = b.len();
    if n < 3 {
        return false;
    }
    let mut i: usize = 0;
    while i <= n - 3
        invariant
            n == b@.len(),
            n >= 3,
            forall|j: int| 0 <= j < i ==> !#[trigger] marker_at(b@, j),
        decreases b@.len() - i,
    {
        if b[i] == 0x2f && b[i + 1] == 0x63 && b[i + 2] == 0x2f {
            assert(marker_at(b@, i as int));
            return true;
        }
        i = i + 1;
    }
    false
}

} // verus!
