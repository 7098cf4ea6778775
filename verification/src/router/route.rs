//! Path patterns and the route node of the chain.

use std::sync::Arc;
use vstd::prelude::*;
use vstd::string::*;
use crate::http_types::{Method, Request, UrlParams};
use crate::router::future::{RouteFuture, Step};
use crate::service::{Reply, Service};

verus! {

/// One segment of a path template, as the matcher sees it.
pub enum Piece {
    /// Text that must stand in the path as it is.
    Literal(Seq<char>),
    /// A named parameter: one or more characters other than `/`.
    Param(Seq<char>),
}

/// The outcome of matching a pattern against the start of a path.
pub struct MatchView {
    /// Where in the path the match ends.
    pub end: int,
    /// The captured parameters, in the order of the template's segments.
    pub captures: Seq<(Seq<char>, Seq<char>)>,
}

/// The first position at or after `from` that holds a `/`, or the length of
/// `s` if there is none.
pub open spec fn segment_end(s: Seq<char>, from: int) -> int
    decreases s.len() - from,
{
    if from < 0 || from >= s.len() || s[from] == '/' {
        from
    } else {
        segment_end(s, from + 1)
    }
}

/// What a segment's text stands for: a parameter if it begins with `:`, else
/// literal text.
pub open spec fn piece_of(text: Seq<char>) -> Piece {
    if text.len() > 0 && text[0] == ':' {
        Piece::Param(text.subrange(1, text.len() as int))
    } else {
        Piece::Literal(text)
    }
}

/// The pieces of the segments of `template` that start at `from`, a segment
/// being what stands between two `/`.
pub open spec fn pieces_from(template: Seq<char>, from: int) -> Seq<Piece>
    decreases template.len() - from,
{
    let end = segment_end(template, from);
    if from < 0 || from > template.len() || end < from {
        Seq::<Piece>::empty()
    } else if end >= template.len() {
        seq![piece_of(template.subrange(from, end))]
    } else {
        seq![piece_of(template.subrange(from, end))] + pieces_from(template, end + 1)
    }
}

/// The pieces of a whole template.
pub open spec fn parse_template(template: Seq<char>) -> Seq<Piece> {
    pieces_from(template, 0)
}

/// Where a single piece ends when it is matched at `pos`, if it matches there.
pub open spec fn piece_end(piece: Piece, path: Seq<char>, pos: int) -> Option<int> {
    match piece {
        Piece::Literal(text) => if pos + text.len() <= path.len() && path.subrange(
            pos,
            pos + text.len(),
        ) == text {
            Some(pos + text.len())
        } else {
            None
        },
        Piece::Param(_) => if segment_end(path, pos) > pos {
            Some(segment_end(path, pos))
        } else {
            None
        },
    }
}

/// Matches the pieces from index `k` on, separated by `/`, against the path
/// from position `pos` on.
pub open spec fn match_from(pieces: Seq<Piece>, k: int, path: Seq<char>, pos: int) -> Option<
    MatchView,
>
    decreases pieces.len() - k,
{
    if k < 0 || k >= pieces.len() || pos < 0 || pos > path.len() {
        None
    } else {
        match piece_end(pieces[k], path, pos) {
            None => None,
            Some(after) => {
                let rest = if k + 1 == pieces.len() {
                    Some(MatchView { end: after, captures: Seq::empty() })
                } else if after < path.len() && path[after] == '/' {
                    match_from(pieces, k + 1, path, after + 1)
                } else {
                    None
                };
                match rest {
                    None => None,
                    Some(m) => match pieces[k] {
                        Piece::Literal(_) => Some(m),
                        Piece::Param(name) => Some(
                            MatchView {
                                end: m.end,
                                captures: seq![(name, path.subrange(pos, after))] + m.captures,
                            },
                        ),
                    },
                }
            },
        }
    }
}

/// Matches a pattern against the start of a path.
pub open spec fn spec_do_match(pieces: Seq<Piece>, path: Seq<char>) -> Option<MatchView> {
    match_from(pieces, 0, path, 0)
}

/// The captures of a match that covers the whole path.
pub open spec fn spec_full_match(pieces: Seq<Piece>, path: Seq<char>) -> Option<
    Seq<(Seq<char>, Seq<char>)>,
> {
    match spec_do_match(pieces, path) {
        Some(m) => if m.end == path.len() {
            Some(m.captures)
        } else {
            None
        },
        None => None,
    }
}

/// The matched start of the path and the captures of a match.
pub open spec fn spec_prefix_match(pieces: Seq<Piece>, path: Seq<char>) -> Option<
    (Seq<char>, Seq<(Seq<char>, Seq<char>)>),
> {
    match spec_do_match(pieces, path) {
        Some(m) => Some((path.subrange(0, m.end), m.captures)),
        None => None,
    }
}

/// A match with `front` put before its captures.
pub open spec fn with_front(front: Seq<(Seq<char>, Seq<char>)>, m: Option<MatchView>) -> Option<
    MatchView,
> {
    match m {
        Some(m) => Some(MatchView { end: m.end, captures: front + m.captures }),
        None => None,
    }
}

/// Whether no piece is a parameter.
pub open spec fn all_literal(pieces: Seq<Piece>) -> bool {
    forall|i: int| 0 <= i < pieces.len() ==> #[trigger] pieces[i] is Literal
}

/// The text of a piece: a literal's text, a parameter's name.
pub open spec fn piece_text(piece: Piece) -> Seq<char> {
    match piece {
        Piece::Literal(text) => text,
        Piece::Param(name) => name,
    }
}

/// The texts of the pieces with a `/` between each two.
pub open spec fn joined(pieces: Seq<Piece>) -> Seq<char>
    decreases pieces.len(),
{
    if pieces.len() == 0 {
        Seq::<char>::empty()
    } else if pieces.len() == 1 {
        piece_text(pieces[0])
    } else {
        piece_text(pieces[0]) + seq!['/'] + joined(pieces.drop_first())
    }
}

/// A segment ends at or after its start and within the text, at a `/` or at
/// the end, and holds no `/`.
pub proof fn lemma_segment_end(s: Seq<char>, from: int)
    requires
        0 <= from <= s.len(),
    ensures
        from <= segment_end(s, from) <= s.len(),
        segment_end(s, from) < s.len() ==> s[segment_end(s, from)] == '/',
        forall|j: int| from <= j < segment_end(s, from) ==> s[j] != '/',
    decreases s.len() - from,
{
    if from < s.len() && s[from] != '/' {
        lemma_segment_end(s, from + 1);
    }
}

/// A template has at least one piece from any position within it on.
pub proof fn lemma_pieces_nonempty(template: Seq<char>, from: int)
    requires
        0 <= from <= template.len(),
    ensures
        pieces_from(template, from).len() >= 1,
{
    lemma_segment_end(template, from);
}

/// Joining the pieces of a template without parameters gives the template back.
pub proof fn lemma_joined_pieces(template: Seq<char>, from: int)
    requires
        0 <= from <= template.len(),
        all_literal(pieces_from(template, from)),
    ensures
        joined(pieces_from(template, from)) == template.subrange(from, template.len() as int),
    decreases template.len() - from,
{
    lemma_segment_end(template, from);
    let end = segment_end(template, from);
    let pieces = pieces_from(template, from);
    let head = template.subrange(from, end);
    assert(pieces[0] == piece_of(head));
    assert(pieces[0] is Literal);
    assert(piece_text(pieces[0]) == head);
    if end >= template.len() {
        assert(head =~= template.subrange(from, template.len() as int));
    } else {
        let rest = pieces_from(template, end + 1);
        lemma_pieces_nonempty(template, end + 1);
        assert(pieces.drop_first() =~= rest);
        assert forall|i: int| 0 <= i < rest.len() implies #[trigger] rest[i] is Literal by {
            assert(rest[i] == pieces[i + 1]);
        }
        lemma_joined_pieces(template, end + 1);
        assert(head + seq!['/'] + template.subrange(end + 1, template.len() as int)
            =~= template.subrange(from, template.len() as int));
    }
}

/// Pieces without parameters match at a position exactly when their joined
/// text stands there, and capture nothing.
pub proof fn lemma_literal_match(pieces: Seq<Piece>, k: int, path: Seq<char>, pos: int)
    requires
        all_literal(pieces),
        0 <= k < pieces.len(),
        0 <= pos <= path.len(),
    ensures
        ({
            let text = joined(pieces.subrange(k, pieces.len() as int));
            match_from(pieces, k, path, pos) == if pos + text.len() <= path.len() && path.subrange(
                pos,
                pos + text.len(),
            ) == text {
                Some(MatchView { end: pos + text.len(), captures: Seq::empty() })
            } else {
                None
            }
        }),
    decreases pieces.len() - k,
{
    let tail = pieces.subrange(k, pieces.len() as int);
    let text = joined(tail);
    assert(pieces[k] is Literal);
    let head = piece_text(pieces[k]);
    assert(tail[0] == pieces[k]);
    if k + 1 == pieces.len() {
        assert(text == head);
    } else {
        let rest = joined(pieces.subrange(k + 1, pieces.len() as int));
        assert(tail.drop_first() =~= pieces.subrange(k + 1, pieces.len() as int));
        assert(text == head + seq!['/'] + rest);
        let after = pos + head.len();
        if pos + text.len() <= path.len() && path.subrange(pos, pos + text.len()) == text {
            let whole = path.subrange(pos, pos + text.len());
            assert(path.subrange(pos, after) =~= whole.subrange(0, head.len() as int));
            assert(whole.subrange(0, head.len() as int) =~= head);
            assert(path[after] == whole[head.len() as int]);
            assert(path.subrange(after + 1, after + 1 + rest.len()) =~= whole.subrange(
                head.len() as int + 1,
                text.len() as int,
            ));
            assert(whole.subrange(head.len() as int + 1, text.len() as int) =~= rest);
            lemma_literal_match(pieces, k + 1, path, after + 1);
        } else if after <= path.len() && path.subrange(pos, after) == head && after < path.len()
            && path[after] == '/' {
            lemma_literal_match(pieces, k + 1, path, after + 1);
            if after + 1 + rest.len() <= path.len() && path.subrange(
                after + 1,
                after + 1 + rest.len(),
            ) == rest {
                assert(path.subrange(pos, pos + text.len()) =~= path.subrange(pos, after)
                    + seq!['/'] + path.subrange(after + 1, after + 1 + rest.len()));
            }
        }
    }
}

/// A template without parameters matches a path in full exactly when the path
/// is the template, character for character, and then captures nothing.
pub proof fn law_literal_template_matches_itself_only(template: Seq<char>, path: Seq<char>)
    requires
        all_literal(parse_template(template)),
    ensures
        spec_full_match(parse_template(template), path) is Some <==> path == template,
        path == template ==> spec_full_match(parse_template(template), path) == Some(
            Seq::<(Seq<char>, Seq<char>)>::empty(),
        ),
{
    let pieces = parse_template(template);
    lemma_pieces_nonempty(template, 0);
    lemma_joined_pieces(template, 0);
    assert(template.subrange(0, template.len() as int) =~= template);
    assert(pieces.subrange(0, pieces.len() as int) =~= pieces);
    lemma_literal_match(pieces, 0, path, 0);
    if template.len() <= path.len() && path.subrange(0, template.len() as int) == template
        && template.len() == path.len() {
        assert(path.subrange(0, path.len() as int) =~= path);
    }
    if path == template {
        assert(path.subrange(0, path.len() as int) =~= path);
    }
}

/// A full match is a prefix match that covers the whole path.
pub proof fn law_full_match_is_whole_prefix_match(pieces: Seq<Piece>, path: Seq<char>)
    ensures
        match spec_prefix_match(pieces, path) {
            Some((matched, captures)) => spec_full_match(pieces, path) == if matched == path {
                Some(captures)
            } else {
                None
            },
            None => spec_full_match(pieces, path) is None,
        },
{
    lemma_match_end(pieces, 0, path, 0);
    if spec_do_match(pieces, path) is Some {
        let m = spec_do_match(pieces, path)->0;
        if m.end == path.len() {
            assert(path.subrange(0, m.end) =~= path);
        } else {
            assert(path.subrange(0, m.end).len() != path.len());
        }
    }
}

/// The names of the parameters among the pieces from index `k` on, in the
/// order of the template.
pub open spec fn param_names(pieces: Seq<Piece>, k: int) -> Seq<Seq<char>>
    decreases pieces.len() - k,
{
    if k < 0 || k >= pieces.len() {
        Seq::<Seq<char>>::empty()
    } else {
        match pieces[k] {
            Piece::Param(name) => seq![name] + param_names(pieces, k + 1),
            Piece::Literal(_) => param_names(pieces, k + 1),
        }
    }
}

/// A match captures one value for each parameter of the template, in the
/// order in which the template declares them; each value is not empty and
/// holds no `/`.
pub proof fn law_captures_follow_declaration(
    pieces: Seq<Piece>,
    k: int,
    path: Seq<char>,
    pos: int,
)
    requires
        match_from(pieces, k, path, pos) is Some,
    ensures
        match_from(pieces, k, path, pos)->0.captures.len() == param_names(pieces, k).len(),
        forall|i: int|
            0 <= i < param_names(pieces, k).len() ==> {
                let capture = #[trigger] match_from(pieces, k, path, pos)->0.captures[i];
                &&& capture.0 == param_names(pieces, k)[i]
                &&& capture.1.len() > 0
                &&& !capture.1.contains('/')
            },
    decreases pieces.len() - k,
{
    let after = piece_end(pieces[k], path, pos)->0;
    lemma_segment_end(path, pos);
    if k + 1 < pieces.len() {
        law_captures_follow_declaration(pieces, k + 1, path, after + 1);
    }
    let found = match_from(pieces, k, path, pos)->0.captures;
    let rest = if k + 1 == pieces.len() {
        Seq::<(Seq<char>, Seq<char>)>::empty()
    } else {
        match_from(pieces, k + 1, path, after + 1)->0.captures
    };
    match pieces[k] {
        Piece::Param(name) => {
            let value = path.subrange(pos, after);
            assert(found == seq![(name, value)] + rest);
            assert(!value.contains('/')) by {
                if value.contains('/') {
                    let j = choose|j: int| 0 <= j < value.len() && value[j] == '/';
                    assert(path[pos + j] == '/');
                }
            }
            assert forall|i: int| 0 <= i < param_names(pieces, k).len() implies {
                let capture = #[trigger] found[i];
                &&& capture.0 == param_names(pieces, k)[i]
                &&& capture.1.len() > 0
                &&& !capture.1.contains('/')
            } by {
                if i > 0 {
                    assert(found[i] == rest[i - 1]);
                    assert(param_names(pieces, k)[i] == param_names(pieces, k + 1)[i - 1]);
                }
            }
        },
        Piece::Literal(_) => {
            assert(found == rest);
        },
    }
}

/// A match ends within the path, at or after the position where it began.
pub proof fn lemma_match_end(pieces: Seq<Piece>, k: int, path: Seq<char>, pos: int)
    ensures
        match_from(pieces, k, path, pos) is Some ==> pos <= match_from(pieces, k, path, pos)->0.end
            <= path.len(),
    decreases pieces.len() - k,
{
    if 0 <= k < pieces.len() && 0 <= pos <= path.len() {
        lemma_segment_end(path, pos);
        match piece_end(pieces[k], path, pos) {
            None => {},
            Some(after) => {
                if k + 1 != pieces.len() && after < path.len() {
                    lemma_match_end(pieces, k + 1, path, after + 1);
                }
            },
        }
    }
}

/// One compiled segment of a path template.
#[derive(Debug)]
pub enum Segment {
    Literal(Vec<char>),
    Param(String),
}

impl Segment {
    pub open spec fn piece(self) -> Piece {
        match self {
            Segment::Literal(text) => Piece::Literal(text@),
            Segment::Param(name) => Piece::Param(name@),
        }
    }
}

/// A compiled path template: literal segments and named parameters. It is
/// never changed once made, and its copies share the compiled segments.
#[derive(Debug)]
pub struct PathPattern {
    segments: Arc<Vec<Segment>>,
}

/// Calls `Arc::clone`. The claim: the new pointer leads to the same segments.
#[verifier::external_body]
fn share(segments: &Arc<Vec<Segment>>) -> (shared: Arc<Vec<Segment>>)
    ensures
        shared == *segments,
{
    Arc::clone(segments)
}

impl Clone for PathPattern {
    /// A copy that shares the compiled segments.
    fn clone(&self) -> (copy: Self)
        ensures
            copy@ == self@,
    {
        PathPattern { segments: share(&self.segments) }
    }
}

/// The result of matching a pattern against the start of a path.
#[derive(Debug)]
pub struct Match {
    pub captures: Vec<(String, String)>,
    pub full_match: bool,
    pub matched: String,
}

/// The characters of a string.
fn chars_of(s: &str) -> (chars: Vec<char>)
    ensures
        chars@ == s@,
{
    let mut chars: Vec<char> = Vec::new();
    for c in it: s.chars()
        invariant
            chars@ == it.seq().take(it.index@),
    {
        chars.push(c);
    }
    chars
}

/// Finds the end of the segment that starts at `from`.
fn scan_segment(chars: &Vec<char>, from: usize) -> (end: usize)
    requires
        from <= chars.len(),
    ensures
        end == segment_end(chars@, from as int),
        from <= end <= chars.len(),
{
    let mut end: usize = from;
    while end < chars.len() && chars[end] != '/'
        invariant
            from <= end <= chars.len(),
            segment_end(chars@, from as int) == segment_end(chars@, end as int),
        decreases chars.len() - end,
    {
        end += 1;
    }
    end
}

/// Whether `text` stands in `path` at position `pos`.
fn literal_at(text: &Vec<char>, path: &Vec<char>, pos: usize) -> (r: bool)
    requires
        pos <= path.len(),
    ensures
        r == (pos + text.len() <= path.len() && path@.subrange(
            pos as int,
            pos + text.len(),
        ) == text@),
{
    if text.len() > path.len() - pos {
        return false;
    }
    let mut j: usize = 0;
    while j < text.len()
        invariant
            j <= text.len(),
            pos + text.len() <= path.len(),
            path@.subrange(pos as int, pos + j) == text@.subrange(0, j as int),
        decreases text.len() - j,
    {
        if path[pos + j] != text[j] {
            proof {
                let whole = path@.subrange(pos as int, pos + text.len());
                assert(whole[j as int] == path@[pos + j]);
            }
            return false;
        }
        j += 1;
        assert(path@.subrange(pos as int, pos + j) =~= text@.subrange(0, j as int));
    }
    assert(text@.subrange(0, text.len() as int) =~= text@);
    true
}

impl PathPattern {
    /// The pieces of the pattern, in the order of the template.
    pub closed spec fn view(&self) -> Seq<Piece> {
        Seq::new(self.segments@.len(), |i: int| self.segments@[i].piece())
    }

    /// Compiles a template. The template starts with `/`; each segment that
    /// begins with `:` becomes a named parameter, every other one is literal.
    pub fn new(pattern: &str) -> (compiled: PathPattern)
        requires
            pattern@.len() > 0,
            pattern@[0] == '/',
        ensures
            compiled@ == parse_template(pattern@),
    {
        let chars = chars_of(pattern);
        let n = chars.len();
        let mut segments: Vec<Segment> = Vec::new();
        let mut from: usize = 0;
        let mut done = false;
        while !done
            invariant
                chars@ == pattern@,
                n == chars@.len(),
                from <= n,
                !done ==> parse_template(pattern@) == Seq::new(
                    segments@.len(),
                    |i: int| segments@[i].piece(),
                ) + pieces_from(pattern@, from as int),
                done ==> parse_template(pattern@) == Seq::new(
                    segments@.len(),
                    |i: int| segments@[i].piece(),
                ),
            decreases n - from + (if done { 0int } else { 1int }),
        {
            let end = scan_segment(&chars, from);
            let ghost before = Seq::new(segments@.len(), |i: int| segments@[i].piece());
            let segment = if end > from && chars[from] == ':' {
                Segment::Param(pattern.substring_char(from + 1, end).to_owned())
            } else {
                Segment::Literal(chars_of(pattern.substring_char(from, end)))
            };
            assert(segment.piece() == piece_of(pattern@.subrange(from as int, end as int))) by {
                let text = pattern@.subrange(from as int, end as int);
                if end > from && chars[from as int] == ':' {
                    assert(text.subrange(1, text.len() as int) =~= pattern@.subrange(
                        from + 1,
                        end as int,
                    ));
                }
            }
            segments.push(segment);
            assert(Seq::new(segments@.len(), |i: int| segments@[i].piece()) =~= before + seq![
                segment.piece(),
            ]);
            if end >= n {
                done = true;
                assert(before + seq![segment.piece()] =~= before + pieces_from(
                    pattern@,
                    from as int,
                ));
            } else {
                assert(before + seq![segment.piece()] + pieces_from(pattern@, end + 1) =~= before
                    + pieces_from(pattern@, from as int));
                from = end + 1;
            }
        }
        PathPattern { segments: Arc::new(segments) }
    }

    /// Matches the pattern against the start of the request's path.
    pub fn do_match<B>(&self, req: &Request<B>) -> (found: Option<Match>)
        ensures
            match found {
                Some(m) => {
                    &&& spec_do_match(self@, req.uri.path@) is Some
                    &&& m.captures.deep_view() == spec_do_match(self@, req.uri.path@)->0.captures
                    &&& m.full_match == (spec_do_match(self@, req.uri.path@)->0.end
                        == req.uri.path@.len())
                    &&& m.matched@ == req.uri.path@.subrange(
                        0,
                        spec_do_match(self@, req.uri.path@)->0.end,
                    )
                },
                None => spec_do_match(self@, req.uri.path@) is None,
            },
    {
        let text = req.uri.path();
        let path = chars_of(text);
        let n = path.len();
        let count = self.segments.len();
        let mut captures: Vec<(String, String)> = Vec::new();
        let mut pos: usize = 0;
        let mut k: usize = 0;
        while k < count
            invariant
                path@ == req.uri.path@,
                text@ == path@,
                n == path@.len(),
                count == self.segments@.len(),
                k <= count,
                pos <= n,
                k == count ==> count == 0,
                spec_do_match(self@, path@) == with_front(
                    captures.deep_view(),
                    match_from(self@, k as int, path@, pos as int),
                ),
            decreases count - k,
        {
            let ghost front = captures.deep_view();
            let ghost mut added: Seq<(Seq<char>, Seq<char>)> = Seq::empty();
            let after = match &self.segments[k] {
                Segment::Literal(lit) => {
                    if !literal_at(lit, &path, pos) {
                        return None;
                    }
                    pos + lit.len()
                },
                Segment::Param(name) => {
                    let end = scan_segment(&path, pos);
                    if end == pos {
                        return None;
                    }
                    let value = text.substring_char(pos, end).to_owned();
                    captures.push((name.clone(), value));
                    proof {
                        added = seq![(name@, path@.subrange(pos as int, end as int))];
                    }
                    assert(captures.deep_view() =~= front + added);
                    end
                },
            };
            assert(piece_end(self@[k as int], path@, pos as int) == Some(after as int));
            assert(captures.deep_view() =~= front + added);
            if k + 1 == count {
                let matched = text.substring_char(0, after).to_owned();
                assert(front + (added + Seq::<(Seq<char>, Seq<char>)>::empty())
                    =~= captures.deep_view());
                assert(front + Seq::<(Seq<char>, Seq<char>)>::empty() =~= front);
                return Some(Match { captures, full_match: after == n, matched });
            }
            if after < n && path[after] == '/' {
                proof {
                    let rest = match_from(self@, k + 1, path@, after + 1);
                    if rest is Some {
                        let m = rest->0;
                        assert(front + (added + m.captures) =~= captures.deep_view()
                            + m.captures);
                        assert(Seq::<(Seq<char>, Seq<char>)>::empty() + m.captures
                            =~= m.captures);
                    }
                }
                pos = after + 1;
                k += 1;
            } else {
                return None;
            }
        }
        None
    }

    /// The captures, if the pattern matches the whole of the request's path.
    pub fn full_match<B>(&self, req: &Request<B>) -> (captures: Option<Vec<(String, String)>>)
        ensures
            captures.deep_view() == spec_full_match(self@, req.uri.path@),
    {
        match self.do_match(req) {
            Some(m) => if m.full_match {
                Some(m.captures)
            } else {
                None
            },
            None => None,
        }
    }

    /// The matched start of the path and the captures, if the pattern matches
    /// the start of the request's path.
    pub fn prefix_match<B>(&self, req: &Request<B>) -> (found: Option<
        (String, Vec<(String, String)>),
    >)
        ensures
            found.deep_view() == spec_prefix_match(self@, req.uri.path@),
    {
        match self.do_match(req) {
            Some(m) => Some((m.matched, m.captures)),
            None => None,
        }
    }
}

/// The parameters held after `added` has been put behind what was there.
pub open spec fn params_after(before: Option<UrlParams>, added: Seq<(Seq<char>, Seq<char>)>) -> Seq<
    (Seq<char>, Seq<char>),
> {
    match before {
        Some(params) => params.deep_view() + added,
        None => added,
    }
}

/// Whether `inner` is `req` with `added` put behind its captured parameters
/// and nothing else changed.
pub open spec fn with_params<B>(
    req: Request<B>,
    added: Seq<(Seq<char>, Seq<char>)>,
    inner: Request<B>,
) -> bool {
    &&& inner.method == req.method
    &&& inner.uri == req.uri
    &&& inner.version == req.version
    &&& inner.headers == req.headers
    &&& inner.body == req.body
    &&& inner.extensions.no_method_match == req.extensions.no_method_match
    &&& inner.extensions.url_params is Some
    &&& inner.extensions.url_params->0.deep_view() == params_after(
        req.extensions.url_params,
        added,
    )
}

/// Puts the captured parameters behind those that the request already
/// carries, keeping the order of both.
pub fn insert_url_params<B>(req: &mut Request<B>, params: Vec<(String, String)>)
    ensures
        with_params(*old(req), params.deep_view(), *final(req)),
{
    let mut params = params;
    let ghost added = params.deep_view();
    let mut merged = match req.extensions.url_params.take() {
        Some(current) => current.0,
        None => Vec::new(),
    };
    let ghost before = merged.deep_view();
    merged.append(&mut params);
    assert(merged.deep_view() =~= before + added);
    assert(Seq::<(Seq<char>, Seq<char>)>::empty() + added =~= added);
    req.extensions.url_params = Some(UrlParams(merged));
}

/// A node of the chain: a pattern, the service that is run where the pattern
/// matches the whole path, and the fallback that is run where it does not.
#[derive(Debug)]
pub struct Route<S, F> {
    pub pattern: PathPattern,
    pub svc: S,
    pub fallback: F,
}

impl<S: Clone, F: Clone> Clone for Route<S, F> {
    fn clone(&self) -> (copy: Self)
        ensures
            copy.pattern@ == self.pattern@,
            cloned(self.svc, copy.svc),
            cloned(self.fallback, copy.fallback),
    {
        Route {
            pattern: self.pattern.clone(),
            svc: self.svc.clone(),
            fallback: self.fallback.clone(),
        }
    }
}

impl<B, S: Service<B>, F: Service<B>> Service<B> for Route<S, F> {
    open spec fn wf(&self) -> bool {
        self.svc.wf() && self.fallback.wf()
    }

    open spec fn accepts(&self, path: Seq<char>, method: Method) -> bool {
        (spec_full_match(self.pattern@, path) is Some && self.svc.accepts(path, method))
            || self.fallback.accepts(path, method)
    }

    open spec fn path_matched(&self, path: Seq<char>) -> bool {
        (spec_full_match(self.pattern@, path) is Some && self.svc.path_matched(path))
            || self.fallback.path_matched(path)
    }

    open spec fn replies(&self, req: Request<B>, reply: Reply<B>) -> bool {
        match spec_full_match(self.pattern@, req.uri.path@) {
            Some(captures) => exists|inner: Request<B>, first: Reply<B>|
                #![trigger self.svc.replies(inner, first)]
                {
                    &&& with_params(req, captures, inner)
                    &&& self.svc.replies(inner, first)
                    &&& match first.from_empty_router {
                        Some(ext) => self.fallback.replies(ext.request, reply),
                        None => reply == first,
                    }
                },
            None => self.fallback.replies(req, reply),
        }
    }

    /// Where the pattern matches the whole path, the captured parameters go
    /// into the request and the primary service runs; a reply that comes
    /// from an empty router sends the request it hands back on to the
    /// fallback. Where the pattern does not match, the fallback runs with
    /// the request as it came.
    fn call(&self, req: Request<B>) -> (reply: Reply<B>) {
        let mut req = req;
        match self.pattern.full_match(&req) {
            Some(captures) => {
                insert_url_params(&mut req, captures);
                let ghost inner = req;
                let mut fut = RouteFuture::a();
                let first = self.svc.call(req);
                assert(self.svc.replies(inner, first));
                match fut.poll(first) {
                    Step::Ready(reply) => reply,
                    Step::Fallback(handed_back) => {
                        let second = self.fallback.call(handed_back);
                        match fut.poll(second) {
                            Step::Ready(reply) => reply,
                            Step::Fallback(_) => vstd::pervasive::unreached(),
                        }
                    },
                }
            },
            None => {
                let mut fut = RouteFuture::b();
                let first = self.fallback.call(req);
                match fut.poll(first) {
                    Step::Ready(reply) => reply,
                    Step::Fallback(_) => vstd::pervasive::unreached(),
                }
            },
        }
    }

    proof fn lemma_taken(&self, req: Request<B>, reply: Reply<B>) {
        if !self.accepts(req.uri.path@, req.method) {
            return ;
        }
        match spec_full_match(self.pattern@, req.uri.path@) {
            Some(captures) => {
                let (inner, first) = choose|inner: Request<B>, first: Reply<B>|
                    #![trigger self.svc.replies(inner, first)]
                    {
                        &&& with_params(req, captures, inner)
                        &&& self.svc.replies(inner, first)
                        &&& match first.from_empty_router {
                            Some(ext) => self.fallback.replies(ext.request, reply),
                            None => reply == first,
                        }
                    };
                self.svc.lemma_taken(inner, first);
                self.svc.lemma_turned_down(inner, first);
                if first.from_empty_router is Some {
                    self.fallback.lemma_taken(first.from_empty_router->0.request, reply);
                }
            },
            None => {
                self.fallback.lemma_taken(req, reply);
            },
        }
    }

    proof fn lemma_turned_down(&self, req: Request<B>, reply: Reply<B>) {
        if self.accepts(req.uri.path@, req.method) {
            return ;
        }
        match spec_full_match(self.pattern@, req.uri.path@) {
            Some(captures) => {
                let (inner, first) = choose|inner: Request<B>, first: Reply<B>|
                    #![trigger self.svc.replies(inner, first)]
                    {
                        &&& with_params(req, captures, inner)
                        &&& self.svc.replies(inner, first)
                        &&& match first.from_empty_router {
                            Some(ext) => self.fallback.replies(ext.request, reply),
                            None => reply == first,
                        }
                    };
                self.svc.lemma_turned_down(inner, first);
                self.fallback.lemma_turned_down(first.from_empty_router->0.request, reply);
            },
            None => {
                self.fallback.lemma_turned_down(req, reply);
            },
        }
    }
}

/// The route that is asked first answers: where the pattern of a route
/// matches the whole path and a handler of its service takes the request,
/// the reply is a reply of that service to the request with the captured
/// parameters, and the fallback is not asked.
pub proof fn law_matching_route_answers<B, S: Service<B>, F: Service<B>>(
    route: Route<S, F>,
    req: Request<B>,
    reply: Reply<B>,
)
    requires
        route.wf(),
        route.replies(req, reply),
        spec_full_match(route.pattern@, req.uri.path@) is Some,
        route.svc.accepts(req.uri.path@, req.method),
    ensures
        reply.from_empty_router is None,
        exists|inner: Request<B>| #[trigger]
            with_params(req, spec_full_match(route.pattern@, req.uri.path@)->0, inner)
                && route.svc.replies(inner, reply),
{
    let captures = spec_full_match(route.pattern@, req.uri.path@)->0;
    let (inner, first) = choose|inner: Request<B>, first: Reply<B>|
        #![trigger route.svc.replies(inner, first)]
        {
            &&& with_params(req, captures, inner)
            &&& route.svc.replies(inner, first)
            &&& match first.from_empty_router {
                Some(ext) => route.fallback.replies(ext.request, reply),
                None => reply == first,
            }
        };
    route.svc.lemma_taken(inner, first);
    assert(with_params(req, captures, inner) && route.svc.replies(inner, reply));
}

/// A route whose pattern does not match the whole path leaves the request
/// to its fallback, as it came.
pub proof fn law_other_path_goes_to_fallback<B, S: Service<B>, F: Service<B>>(
    route: Route<S, F>,
    req: Request<B>,
    reply: Reply<B>,
)
    requires
        spec_full_match(route.pattern@, req.uri.path@) is None,
    ensures
        route.replies(req, reply) == route.fallback.replies(req, reply),
{
}

/// A chain as registration builds it: routes wrapped round an empty router.
pub trait Chain<B>: Service<B> {
    /// Whether the pattern of some route of the chain matches the whole path.
    spec fn route_matches(&self, path: Seq<char>) -> bool;

    /// Whether the terminal node of the chain is the one that answers 404.
    spec fn ends_not_found(&self) -> bool;

    /// Where no route's pattern matches the path, no handler takes the
    /// request and no node is left to turn its method down.
    proof fn lemma_no_route(&self, path: Seq<char>, method: Method)
        requires
            self.ends_not_found(),
            !self.route_matches(path),
        ensures
            !self.accepts(path, method),
            !self.path_matched(path),
    ;
}

impl<B, S: Service<B>, F: Chain<B>> Chain<B> for Route<S, F> {
    open spec fn route_matches(&self, path: Seq<char>) -> bool {
        spec_full_match(self.pattern@, path) is Some || self.fallback.route_matches(path)
    }

    open spec fn ends_not_found(&self) -> bool {
        self.fallback.ends_not_found()
    }

    proof fn lemma_no_route(&self, path: Seq<char>, method: Method) {
        self.fallback.lemma_no_route(path, method);
    }
}

} // verus!
