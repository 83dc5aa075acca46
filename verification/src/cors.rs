//! The cross-origin policy, read from its setting: a star for any origin, or
//! a list of origins with commas between them.

use vstd::prelude::*;
use crate::text::{char_is_white_space, is_white_space};

verus! {

/// `s` without the white space it starts with.
pub open spec fn trim_start(s: Seq<char>) -> Seq<char>
    decreases s.len(),
{
    if s.len() > 0 && is_white_space(s[0]) {
        trim_start(s.skip(1))
    } else {
        s
    }
}

/// `s` without the white space it ends with.
pub open spec fn trim_end(s: Seq<char>) -> Seq<char>
    decreases s.len(),
{
    if s.len() > 0 && is_white_space(s.last()) {
        trim_end(s.drop_last())
    } else {
        s
    }
}

/// `s` without the white space at either end.
pub open spec fn trim(s: Seq<char>) -> Seq<char> {
    trim_end(trim_start(s))
}

/// The pieces of `s` between its commas, read from left to right: a comma
/// ends a piece and starts the next, any other character joins the last
/// piece. A text without a comma is one piece.
pub open spec fn split_commas(s: Seq<char>) -> Seq<Seq<char>>
    decreases s.len(),
{
    if s.len() == 0 {
        seq![Seq::<char>::empty()]
    } else {
        let before = split_commas(s.drop_last());
        if s.last() == ',' {
            before.push(Seq::<char>::empty())
        } else {
            before.drop_last().push(before.last().push(s.last()))
        }
    }
}

/// The origins that the setting `s` lists: its pieces, each trimmed.
pub open spec fn listed_origins(s: Seq<char>) -> Seq<Seq<char>> {
    split_commas(s).map_values(|piece: Seq<char>| trim(piece))
}

/// Whether the setting `s` allows any origin: it is a star, with or without
/// white space around it.
pub open spec fn allows_any(s: Seq<char>) -> bool {
    trim(s) == seq!['*']
}

/// True of the characters that a header's value may hold: the tab, and
/// every character from the space on but the delete character. A text of
/// such characters is a header value, and no other text is: each of its
/// bytes is then a tab, or at least 32 and not 127.
pub open spec fn is_header_char(c: char) -> bool {
    let n = c as u32;
    n == 0x09 || (n >= 0x20 && n != 0x7F)
}

/// Whether `s` can stand as the value of a header.
pub open spec fn is_header_text(s: Seq<char>) -> bool {
    forall|i: int| 0 <= i < s.len() ==> is_header_char(#[trigger] s[i])
}

/// Those of `pieces` that can stand as the value of a header, in their
/// order.
pub open spec fn header_texts(pieces: Seq<Seq<char>>) -> Seq<Seq<char>>
    decreases pieces.len(),
{
    if pieces.len() == 0 {
        Seq::<Seq<char>>::empty()
    } else if is_header_text(pieces.last()) {
        header_texts(pieces.drop_last()).push(pieces.last())
    } else {
        header_texts(pieces.drop_last())
    }
}

/// The origins that the setting `s` allows: those it lists that can stand
/// as the value of a header.
pub open spec fn accepted_origins(s: Seq<char>) -> Seq<Seq<char>> {
    header_texts(listed_origins(s))
}

/// Whether a star stands among `origins`.
pub open spec fn holds_star(origins: Seq<Seq<char>>) -> bool {
    origins.contains(seq!['*'])
}

/// The cross-origin policy of the service.
#[derive(Debug, Clone, PartialEq, Eq)]
pub enum CorsPolicy {
    /// Requests of any origin are allowed.
    AnyOrigin,
    /// Requests of these origins are allowed. No star is among them.
    Origins(Vec<String>),
    /// The setting lists a star beside other origins. That allows neither
    /// any origin nor a list of them: no policy can be made of it.
    StarAmongOrigins,
}

/// The views of `texts`, one for each.
pub open spec fn views(texts: Seq<String>) -> Seq<Seq<char>> {
    texts.map_values(|text: String| text@)
}

/// Finds where the trimmed part of `s[lo..hi]` starts and ends.
fn trim_span(s: &str, lo: usize, hi: usize) -> (span: (usize, usize))
    requires
        lo <= hi <= s@.len(),
    ensures
        lo <= span.0 <= span.1 <= hi,
        s@.subrange(span.0 as int, span.1 as int) == trim(s@.subrange(lo as int, hi as int)),
{
    let mut from: usize = lo;
    while from < hi && char_is_white_space(s.get_char(from))
        invariant
            lo <= from <= hi <= s@.len(),
            trim_start(s@.subrange(lo as int, hi as int)) == trim_start(
                s@.subrange(from as int, hi as int),
            ),
        decreases hi - from,
    {
        assert(s@.subrange(from as int, hi as int).skip(1) =~= s@.subrange(
            from as int + 1,
            hi as int,
        ));
        from += 1;
    }
    let mut to: usize = hi;
    while from < to && char_is_white_space(s.get_char(to - 1))
        invariant
            lo <= from <= to <= hi <= s@.len(),
            from < hi ==> !is_white_space(s@[from as int]),
            trim(s@.subrange(lo as int, hi as int)) == trim_end(
                s@.subrange(from as int, to as int),
            ),
        decreases to - from,
    {
        assert(s@.subrange(from as int, to as int).drop_last() =~= s@.subrange(
            from as int,
            to as int - 1,
        ));
        to -= 1;
    }
    (from, to)
}

/// The trimmed part of `s[lo..hi]`, as a text of its own.
fn trimmed_piece(s: &str, lo: usize, hi: usize) -> (piece: String)
    requires
        lo <= hi <= s@.len(),
    ensures
        piece@ == trim(s@.subrange(lo as int, hi as int)),
{
    let (from, to) = trim_span(s, lo, hi);
    s.substring_char(from, to).to_owned()
}

/// Whether the setting allows any origin.
pub fn is_any_origin(origins: &str) -> (any: bool)
    ensures
        any == allows_any(origins@),
{
    let n: usize = origins.unicode_len();
    let (from, to) = trim_span(origins, 0, n);
    assert(origins@.subrange(0, n as int) =~= origins@);
    if to - from == 1 {
        let c = origins.get_char(from);
        assert(origins@.subrange(from as int, to as int) =~= seq![origins@[from as int]]);
        proof {
            if c == '*' {
                assert(trim(origins@) =~= seq!['*']);
            } else {
                assert(trim(origins@)[0] != seq!['*'][0]);
            }
        }
        c == '*'
    } else {
        assert(trim(origins@).len() != seq!['*'].len());
        false
    }
}

/// The origins that the setting lists, in its order: what stands between
/// its commas, trimmed.
pub fn origin_list(origins: &str) -> (list: Vec<String>)
    ensures
        views(list@) == listed_origins(origins@),
{
    let n: usize = origins.unicode_len();
    let mut list: Vec<String> = Vec::new();
    let mut start: usize = 0;
    let mut i: usize = 0;
    while i < n
        invariant
            n == origins@.len(),
            start <= i <= n,
            split_commas(origins@.take(i as int)).len() == list@.len() + 1,
            split_commas(origins@.take(i as int)).last() == origins@.subrange(
                start as int,
                i as int,
            ),
            views(list@) == listed_origins(origins@.take(i as int)).drop_last(),
        decreases n - i,
    {
        let c = origins.get_char(i);
        let ghost before = origins@.take(i as int);
        let ghost now = origins@.take(i as int + 1);
        assert(now.drop_last() =~= before);
        assert(now.last() == c);
        if c == ',' {
            let piece = trimmed_piece(origins, start, i);
            let ghost old_list = list@;
            list.push(piece);
            start = i + 1;
            assert(origins@.subrange(start as int, i as int + 1) =~= Seq::<char>::empty());
            assert(views(list@) =~= views(old_list).push(piece@));
            assert(listed_origins(now).drop_last() =~= listed_origins(before));
            assert(listed_origins(before) =~= listed_origins(before).drop_last().push(
                trim(split_commas(before).last()),
            ));
        } else {
            assert(origins@.subrange(start as int, i as int + 1) =~= origins@.subrange(
                start as int,
                i as int,
            ).push(c));
            assert(listed_origins(now).drop_last() =~= listed_origins(before).drop_last());
        }
        i += 1;
    }
    assert(origins@.take(n as int) =~= origins@);
    let piece = trimmed_piece(origins, start, n);
    let ghost old_list = list@;
    list.push(piece);
    assert(views(list@) =~= views(old_list).push(piece@));
    assert(listed_origins(origins@) =~= listed_origins(origins@).drop_last().push(
        trim(split_commas(origins@).last()),
    ));
    list
}

/// Whether `s` can stand as the value of a header.
pub fn text_is_header_value(s: &str) -> (ok: bool)
    ensures
        ok == is_header_text(s@),
{
    let n: usize = s.unicode_len();
    let mut i: usize = 0;
    while i < n
        invariant
            n == s@.len(),
            i <= n,
            forall|j: int| 0 <= j < i ==> is_header_char(#[trigger] s@[j]),
        decreases n - i,
    {
        let code: u32 = s.get_char(i) as u32;
        if !(code == 0x09 || (code >= 0x20 && code != 0x7F)) {
            return false;
        }
        i += 1;
    }
    true
}

/// The origins that the setting allows, in its order: what stands between
/// its commas, trimmed, where that can stand as the value of a header.
pub fn accepted_origin_list(origins: &str) -> (list: Vec<String>)
    ensures
        views(list@) == accepted_origins(origins@),
{
    let listed = origin_list(origins);
    let mut list: Vec<String> = Vec::new();
    let mut i: usize = 0;
    while i < listed.len()
        invariant
            i <= listed@.len(),
            views(listed@) == listed_origins(origins@),
            views(list@) == header_texts(views(listed@).take(i as int)),
        decreases listed@.len() - i,
    {
        let ghost before = views(listed@).take(i as int);
        let ghost now = views(listed@).take(i as int + 1);
        assert(now.drop_last() =~= before);
        assert(now.last() == listed@[i as int]@);
        if text_is_header_value(listed[i].as_str()) {
            let ghost old_list = list@;
            let origin = listed[i].clone();
            list.push(origin);
            assert(views(list@) =~= views(old_list).push(origin@));
        }
        i += 1;
    }
    assert(views(listed@).take(listed@.len() as int) =~= views(listed@));
    list
}

/// Whether a star stands among `origins`.
pub fn list_holds_star(origins: &Vec<String>) -> (found: bool)
    ensures
        found == holds_star(views(origins@)),
{
    let star = "*".to_owned();
    proof {
        reveal_strlit("*");
        assert(star@ =~= seq!['*']);
    }
    let mut i: usize = 0;
    while i < origins.len()
        invariant
            i <= origins@.len(),
            star@ == seq!['*'],
            forall|j: int| 0 <= j < i ==> views(origins@)[j] != seq!['*'],
        decreases origins@.len() - i,
    {
        if origins[i] == star {
            assert(views(origins@)[i as int] == seq!['*']);
            return true;
        }
        i += 1;
    }
    false
}

/// What the policy is for each setting: any origin for a star alone; else
/// the origins that the setting allows, unless a star is among them.
pub open spec fn policy_of(s: Seq<char>, policy: CorsPolicy) -> bool {
    if allows_any(s) {
        policy is AnyOrigin
    } else if holds_star(accepted_origins(s)) {
        policy is StarAmongOrigins
    } else {
        policy matches CorsPolicy::Origins(list) && views(list@) == accepted_origins(s)
    }
}

/// The policy that the setting stands for.
pub fn cors_policy(origins: &str) -> (policy: CorsPolicy)
    ensures
        policy_of(origins@, policy),
{
    if is_any_origin(origins) {
        CorsPolicy::AnyOrigin
    } else {
        let list = accepted_origin_list(origins);
        if list_holds_star(&list) {
            CorsPolicy::StarAmongOrigins
        } else {
            CorsPolicy::Origins(list)
        }
    }
}

} // verus!
