//! Per-request overrides carried in header values: an allow-list of
//! conversation keys and boolean switches.
use vstd::prelude::*;
use crate::text::{is_white_space, same_text};

verus! {

/// `s` without its leading white space.
pub open spec fn trim_start(s: Seq<char>) -> Seq<char>
    decreases s.len(),
{
    if s.len() > 0 && is_white_space(s[0]) {
        trim_start(s.drop_first())
    } else {
        s
    }
}

/// `s` without its trailing white space.
pub open spec fn trim_end(s: Seq<char>) -> Seq<char>
    decreases s.len(),
{
    if s.len() > 0 && is_white_space(s.last()) {
        trim_end(s.drop_last())
    } else {
        s
    }
}

/// `s` without white space at either end.
pub open spec fn trim(s: Seq<char>) -> Seq<char> {
    trim_end(trim_start(s))
}

/// The pieces of `s` between commas (one more than there are commas).
pub open spec fn comma_pieces(s: Seq<char>) -> Seq<Seq<char>>
    decreases s.len(),
{
    if s.len() == 0 {
        seq![Seq::empty()]
    } else {
        let rest = comma_pieces(s.drop_last());
        if s.last() == ',' {
            rest.push(Seq::empty())
        } else {
            rest.update(rest.len() - 1, rest.last().push(s.last()))
        }
    }
}

/// The trimmed pieces that are not empty, in order.
pub open spec fn kept_pieces(pieces: Seq<Seq<char>>) -> Seq<Seq<char>>
    decreases pieces.len(),
{
    if pieces.len() == 0 {
        Seq::empty()
    } else {
        let before = kept_pieces(pieces.drop_last());
        let t = trim(pieces.last());
        if t.len() > 0 {
            before.push(t)
        } else {
            before
        }
    }
}

/// The identifiers of a comma-separated list: each piece trimmed, empty ones left out.
pub open spec fn listed_ids(s: Seq<char>) -> Seq<Seq<char>> {
    kept_pieces(comma_pieces(s))
}

proof fn lemma_comma_pieces_len(s: Seq<char>)
    ensures
        comma_pieces(s).len() >= 1,
    decreases s.len(),
{
    if s.len() > 0 {
        lemma_comma_pieces_len(s.drop_last());
    }
}

/// The last piece of a prefix ending at `i` is the text after the last comma before `i`.
proof fn lemma_last_piece(s: Seq<char>, start: int, i: int)
    requires
        0 <= start <= i <= s.len(),
        start == 0 || s[start - 1] == ',',
        forall|j: int| start <= j < i ==> s[j] != ',',
    ensures
        comma_pieces(s.subrange(0, i)).last() == s.subrange(start, i),
        comma_pieces(s.subrange(0, i)).drop_last() == comma_pieces(s.subrange(0, start)).drop_last(),
    decreases i - start,
{
    lemma_comma_pieces_len(s.subrange(0, i));
    if i == start {
        if start > 0 {
            let p = s.subrange(0, start);
            assert(p.drop_last() =~= s.subrange(0, start - 1));
            lemma_comma_pieces_len(p.drop_last());
        }
        assert(s.subrange(start, i) =~= Seq::<char>::empty());
    } else {
        lemma_last_piece(s, start, i - 1);
        let p = s.subrange(0, i);
        assert(p.drop_last() =~= s.subrange(0, i - 1));
        lemma_comma_pieces_len(p.drop_last());
        assert(s.subrange(start, i) =~= s.subrange(start, i - 1).push(s[i - 1]));
        let rest = comma_pieces(s.subrange(0, i - 1));
        assert(comma_pieces(p).drop_last() =~= rest.drop_last());
    }
}

proof fn lemma_trim_start_skip(s: Seq<char>, a: int)
    requires
        0 <= a <= s.len(),
        forall|j: int| 0 <= j < a ==> is_white_space(#[trigger] s[j]),
    ensures
        trim_start(s) == trim_start(s.subrange(a, s.len() as int)),
    decreases a,
{
    if a > 0 {
        lemma_trim_start_skip(s.drop_first(), a - 1);
        assert(s.drop_first().subrange(a - 1, s.len() - 1) =~= s.subrange(a, s.len() as int));
    } else {
        assert(s.subrange(0, s.len() as int) =~= s);
    }
}

proof fn lemma_trim_end_skip(s: Seq<char>, b: int)
    requires
        0 <= b <= s.len(),
        forall|j: int| b <= j < s.len() ==> is_white_space(#[trigger] s[j]),
    ensures
        trim_end(s) == trim_end(s.subrange(0, b)),
    decreases s.len() - b,
{
    if b < s.len() {
        lemma_trim_end_skip(s.drop_last(), b);
        assert(s.drop_last().subrange(0, b) =~= s.subrange(0, b));
    } else {
        assert(s.subrange(0, b) =~= s);
    }
}

/// The text between `from` and `to`, without white space at either end.
fn trimmed(s: &str, from: usize, to: usize) -> (r: String)
    requires
        from <= to <= s@.len(),
    ensures
        r@ == trim(s@.subrange(from as int, to as int)),
{
    let ghost piece = s@.subrange(from as int, to as int);
    let mut a = from;
    while a < to && crate::text::is_blank(s.substring_char(a, a + 1))
        invariant
            from <= a <= to <= s@.len(),
            forall|j: int| from <= j < a ==> is_white_space(#[trigger] s@[j]),
        decreases to - a,
    {
        proof {
            assert(s@.subrange(a as int, a + 1)[0] == s@[a as int]);
        }
        a = a + 1;
    }
    proof {
        if a < to {
            assert(s@.subrange(a as int, a + 1)[0] == s@[a as int]);
            assert(!is_white_space(s@[a as int]));
        }
        assert forall|j: int| 0 <= j < a - from implies is_white_space(#[trigger] piece[j]) by {
            assert(piece[j] == s@[from + j]);
        }
        lemma_trim_start_skip(piece, a - from);
        let rest = piece.subrange(a - from, piece.len() as int);
        assert(rest =~= s@.subrange(a as int, to as int));
        if a < to {
            assert(rest[0] == s@[a as int]);
        }
        assert(trim_start(rest) == rest);
    }
    let mut b = to;
    while b > a && crate::text::is_blank(s.substring_char(b - 1, b))
        invariant
            from <= a <= b <= to <= s@.len(),
            forall|j: int| b <= j < to ==> is_white_space(#[trigger] s@[j]),
        decreases b - a,
    {
        proof {
            assert(s@.subrange(b - 1, b as int)[0] == s@[b - 1]);
        }
        b = b - 1;
    }
    proof {
        let rest = s@.subrange(a as int, to as int);
        if b > a {
            assert(s@.subrange(b - 1, b as int)[0] == s@[b - 1]);
        }
        assert forall|j: int| b - a <= j < rest.len() implies is_white_space(#[trigger] rest[j]) by {
            assert(rest[j] == s@[a + j]);
        }
        lemma_trim_end_skip(rest, b - a);
        let core = rest.subrange(0, b - a);
        assert(core =~= s@.subrange(a as int, b as int));
        if b > a {
            assert(core.last() == s@[b - 1]);
        }
        assert(trim_end(core) == core);
    }
    s.substring_char(a, b).to_string()
}

/// The identifiers of a comma-separated header value, each trimmed of white
/// space, empty ones left out.
pub fn split_allowed_ids(value: &str) -> (r: Vec<String>)
    ensures
        r@.len() == listed_ids(value@).len(),
        forall|i: int| 0 <= i < r@.len() ==> (#[trigger] r@[i])@ == listed_ids(value@)[i],
{
    let n = value.unicode_len();
    let mut out: Vec<String> = Vec::new();
    let mut start: usize = 0;
    let mut i: usize = 0;
    proof {
        assert(value@.subrange(0, 0) =~= Seq::<char>::empty());
    }
    while i < n
        invariant
            n == value@.len(),
            start <= i <= n,
            start == 0 || value@[start - 1] == ',',
            forall|j: int| start <= j < i ==> value@[j] != ',',
            out@.len() == kept_pieces(comma_pieces(value@.subrange(0, start as int)).drop_last()).len(),
            forall|k: int| 0 <= k < out@.len() ==> (#[trigger] out@[k])@ == kept_pieces(comma_pieces(value@.subrange(0, start as int)).drop_last())[k],
        decreases n - i,
    {
        let c = value.get_char(i);
        if c == ',' {
            let piece = trimmed(value, start, i);
            proof {
                lemma_last_piece(value@, start as int, i as int);
                let p = value@.subrange(0, i + 1);
                assert(p.drop_last() =~= value@.subrange(0, i as int));
                let before = comma_pieces(value@.subrange(0, i as int));
                assert(comma_pieces(p) == before.push(Seq::empty()));
                assert(comma_pieces(p).drop_last() =~= before);
                lemma_comma_pieces_len(value@.subrange(0, i as int));
                assert(before.drop_last() =~= comma_pieces(value@.subrange(0, start as int)).drop_last());
            }
            let ghost old_out = out@;
            if piece.as_str().unicode_len() > 0 {
                out.push(piece);
            }
            proof {
                let before = comma_pieces(value@.subrange(0, i as int));
                assert(before =~= before.drop_last().push(before.last()));
                assert(out@.len() == kept_pieces(before).len());
                assert forall|k: int| 0 <= k < out@.len() implies (#[trigger] out@[k])@ == kept_pieces(before)[k] by {
                    if k < old_out.len() {
                        assert(out@[k] == old_out[k]);
                    }
                }
            }
            start = i + 1;
        }
        i = i + 1;
    }
    let piece = trimmed(value, start, n);
    proof {
        lemma_last_piece(value@, start as int, n as int);
        lemma_comma_pieces_len(value@.subrange(0, n as int));
        assert(value@.subrange(0, n as int) =~= value@);
    }
    let ghost old_out = out@;
    if piece.as_str().unicode_len() > 0 {
        out.push(piece);
    }
    proof {
        let all = comma_pieces(value@);
        assert(all =~= all.drop_last().push(all.last()));
        assert forall|k: int| 0 <= k < out@.len() implies (#[trigger] out@[k])@ == listed_ids(value@)[k] by {
            if k < old_out.len() {
                assert(out@[k] == old_out[k]);
            }
        }
    }
    out
}

/// The allow-list carried by a header value: `None` when no identifier is listed.
pub fn parse_allowed_ids(value: &str) -> (r: Option<Vec<String>>)
    ensures
        r is None <==> listed_ids(value@).len() == 0,
        r matches Some(ids) ==> ids@.len() == listed_ids(value@).len() && forall|i: int|
            0 <= i < ids@.len() ==> (#[trigger] ids@[i])@ == listed_ids(value@)[i],
{
    let ids = split_allowed_ids(value);
    if ids.len() == 0 {
        None
    } else {
        Some(ids)
    }
}

/// The switch that a boolean header value spells: `true` or `1`, `false` or `0`.
pub open spec fn flag_of(v: Seq<char>) -> Option<bool> {
    if v == "true"@ || v == "1"@ {
        Some(true)
    } else if v == "false"@ || v == "0"@ {
        Some(false)
    } else {
        None
    }
}

/// Reads a boolean header value; `None` for any other text.
pub fn parse_bool_header(value: &str) -> (r: Option<bool>)
    ensures
        r == flag_of(value@),
{
    if same_text(value, "true") || same_text(value, "1") {
        Some(true)
    } else if same_text(value, "false") || same_text(value, "0") {
        Some(false)
    } else {
        None
    }
}

} // verus!
