//! Listings of what a pack declares, for display.

use vstd::prelude::*;
use vstd::string::StringExecFns;
use vstd::utf8::decode_utf8;
use vstd::utf8::encode_utf8;
use vstd::utf8::encode_utf8_decode_utf8;
use vstd::utf8::is_char_boundary;

verus! {

/// The topics with `, ` between each two.
pub open spec fn comma_list(topics: Seq<String>) -> Seq<char>
    decreases topics.len(),
{
    if topics.len() == 0 {
        Seq::empty()
    } else if topics.len() == 1 {
        topics[0]@
    } else {
        comma_list(topics.drop_last()) + ", "@ + topics.last()@
    }
}

/// Whether the list of topics can be cut for display: it is short enough to
/// be shown whole, or its byte 57 starts a character.
pub open spec fn can_summarize(topics: Seq<String>) -> bool {
    encode_utf8(comma_list(topics)).len() > 60 ==> is_char_boundary(
        encode_utf8(comma_list(topics)),
        57,
    )
}

/// The topics on one line: `-` for none, the list where it has at most 60
/// bytes, else its first 57 bytes and `...`.
pub open spec fn summary_of(topics: Seq<String>) -> Seq<char> {
    if topics.len() == 0 {
        "-"@
    } else if encode_utf8(comma_list(topics)).len() > 60 {
        decode_utf8(encode_utf8(comma_list(topics)).subrange(0, 57)) + "..."@
    } else {
        comma_list(topics)
    }
}

/// Puts the topics of a provider on one line.
pub fn summarize_topics(topics: &Vec<String>) -> (line: String)
    requires
        can_summarize(topics@),
    ensures
        line@ == summary_of(topics@),
{
    if topics.len() == 0 {
        return "-".to_owned();
    }
    let mut combined = String::new();
    let mut i: usize = 0;
    assert(topics@.take(0) == Seq::<String>::empty());
    while i < topics.len()
        invariant
            i <= topics@.len(),
            combined@ == comma_list(topics@.take(i as int)),
        decreases topics@.len() - i,
    {
        proof {
            assert(topics@.take(i + 1).drop_last() == topics@.take(i as int));
            assert(topics@.take(i + 1).last() == topics@[i as int]);
        }
        if i > 0 {
            combined.append(", ");
        }
        combined.append(topics[i].as_str());
        assert(combined@ =~= comma_list(topics@.take(i + 1)));
        i += 1;
    }
    assert(topics@.take(topics@.len() as int) == topics@);
    if combined.as_str().as_bytes().len() > 60 {
        let (head, _) = combined.as_str().split_at(57);
        proof {
            encode_utf8_decode_utf8(head@);
            assert(encode_utf8(head@) == encode_utf8(combined@).subrange(0, 57));
            assert(head@ == decode_utf8(encode_utf8(combined@).subrange(0, 57)));
        }
        let mut line = head.to_owned();
        line.append("...");
        line
    } else {
        combined
    }
}

} // verus!
