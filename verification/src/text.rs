//! Text helpers: editing a `String` in place, lower case and substring
//! search, and cutting a text to a number of characters or of terminal
//! columns.

use vstd::prelude::*;
use vstd::std_specs::iter::IteratorSpec;
use vstd::string::StringExecFns;

verus! {

/// The lower case form that `str::to_lowercase` gives to a text.
pub uninterp spec fn lowercase(s: Seq<char>) -> Seq<char>;

/// The number of terminal columns that `unicode_width` gives to one
/// character, or `None` for a control character.
pub uninterp spec fn char_columns(c: char) -> Option<usize>;

/// The number of terminal columns that `unicode_width` gives to a whole
/// text. It is not the sum over the characters: the crate reads sequences
/// such as an emoji with a modifier as one unit.
pub uninterp spec fn text_columns(s: Seq<char>) -> usize;

/// `needle` occurs in `hay` as a run of consecutive characters.
pub open spec fn is_substring(needle: Seq<char>, hay: Seq<char>) -> bool {
    exists|i: int|
        0 <= i && i + needle.len() <= hay.len() && #[trigger] hay.subrange(
            i,
            i + needle.len(),
        ) == needle
}

/// `String::push`: the character is appended at the end.
#[verifier::external_body]
pub(crate) fn string_push(s: &mut String, c: char)
    ensures
        final(s)@ == old(s)@.push(c),
{
    s.push(c);
}

/// `String::pop`: the last character is removed and returned; an empty string
/// stays empty and gives `None`.
#[verifier::external_body]
pub(crate) fn string_pop(s: &mut String) -> (r: Option<char>)
    ensures
        old(s)@.len() == 0 ==> r is None && final(s)@ == old(s)@,
        old(s)@.len() > 0 ==> r == Some(old(s)@.last()) && final(s)@ == old(s)@.drop_last(),
{
    s.pop()
}

/// `String::clear`: the string is empty afterwards.
#[verifier::external_body]
pub(crate) fn string_clear(s: &mut String)
    ensures
        final(s)@ == Seq::<char>::empty(),
{
    s.clear();
}

/// `str::to_lowercase`: a new string that holds the lower case form of the
/// text. The contract only names that form.
#[verifier::external_body]
pub(crate) fn to_lowercase(s: &str) -> (r: String)
    ensures
        r@ == lowercase(s@),
{
    s.to_lowercase()
}

/// `unicode_width::UnicodeWidthChar::width`: the columns of one character.
/// The contract only names the result.
#[verifier::external_body]
pub(crate) fn char_width(c: char) -> (r: Option<usize>)
    ensures
        r == char_columns(c),
{
    unicode_width::UnicodeWidthChar::width(c)
}

/// `unicode_width::UnicodeWidthStr::width`: the columns of a text. The
/// contract only names the result.
#[verifier::external_body]
pub(crate) fn str_width(s: &str) -> (r: usize)
    ensures
        r == text_columns(s@),
{
    unicode_width::UnicodeWidthStr::width(s)
}

/// The characters of a text, in order.
pub fn chars_of(s: &str) -> (out: Vec<char>)
    ensures
        out@ == s@,
{
    broadcast use vstd::string::group_string_axioms;

    let mut it = s.chars();
    let mut out: Vec<char> = Vec::new();
    loop
        invariant
            it.obeys_prophetic_iter_laws(),
            out@ + it.remaining() == s@,
            it.decrease() is Some,
        decreases it.decrease()->0,
    {
        let ghost before = it.remaining();
        match it.next() {
            Some(c) => {
                out.push(c);
                assert(out@ + it.remaining() =~= s@) by {
                    assert(before =~= seq![c] + it.remaining());
                }
            },
            None => {
                assert(out@ =~= s@);
                return out;
            },
        }
    }
}

/// Whether a text occurs in another as a run of consecutive characters.
pub fn str_contains(hay: &str, needle: &str) -> (r: bool)
    ensures
        r == is_substring(needle@, hay@),
{
    let h = chars_of(hay);
    let n = chars_of(needle);
    if n.len() > h.len() {
        return false;
    }
    let last: usize = h.len() - n.len();
    let mut i: usize = 0;
    while i <= last
        invariant
            h@ == hay@,
            n@ == needle@,
            last == h.len() - n.len(),
            0 <= i <= last + 1,
            forall|j: int| 0 <= j < i ==> #[trigger] hay@.subrange(j, j + n.len()) != needle@,
        decreases last + 1 - i,
    {
        let mut k: usize = 0;
        while k < n.len() && h[i + k] == n[k]
            invariant
                h@ == hay@,
                n@ == needle@,
                last == h.len() - n.len(),
                0 <= i <= last,
                0 <= k <= n.len(),
                forall|t: int| 0 <= t < k ==> hay@[i + t] == needle@[t],
            decreases n.len() - k,
        {
            k = k + 1;
        }
        if k == n.len() {
            assert(hay@.subrange(i as int, i + n.len()) =~= needle@);
            return true;
        }
        assert(hay@.subrange(i as int, i + n.len())[k as int] != needle@[k as int]);
        i = i + 1;
    }
    false
}

/// One of the texts holds the query as a run of consecutive characters.
pub open spec fn any_contains(fields: Seq<Seq<char>>, query: Seq<char>) -> bool {
    exists|i: int| 0 <= i < fields.len() && is_substring(query, #[trigger] fields[i])
}

/// Whether one of the texts holds the query.
pub fn contains_in_any(fields: &Vec<String>, query: &str) -> (r: bool)
    ensures
        r == any_contains(fields@.map_values(|f: String| f@), query@),
{
    let ghost texts = fields@.map_values(|f: String| f@);
    let mut i: usize = 0;
    while i < fields.len()
        invariant
            0 <= i <= fields.len(),
            texts == fields@.map_values(|f: String| f@),
            forall|j: int| 0 <= j < i ==> !is_substring(query@, #[trigger] texts[j]),
        decreases fields.len() - i,
    {
        if str_contains(fields[i].as_str(), query) {
            assert(is_substring(query@, texts[i as int]));
            return true;
        }
        i = i + 1;
    }
    false
}

/// A text cut to at most `max_chars` characters: a text that is longer
/// keeps its first `max_chars - 3` characters (none where `max_chars < 3`)
/// and ends in three dots.
pub open spec fn truncated(s: Seq<char>, max_chars: nat) -> Seq<char> {
    if s.len() <= max_chars {
        s
    } else {
        s.take(
            if max_chars >= 3 {
                max_chars - 3
            } else {
                0
            },
        ) + "..."@
    }
}

/// Cuts a text to at most `max_chars` characters: see `truncated`.
pub fn truncate(s: &str, max_chars: usize) -> (r: String)
    ensures
        r@ == truncated(s@, max_chars as nat),
{
    let char_count: usize = s.unicode_len();
    if char_count <= max_chars {
        s.to_owned()
    } else {
        let keep: usize = if max_chars >= 3 {
            max_chars - 3
        } else {
            0
        };
        let head = s.substring_char(0, keep);
        let mut r = head.to_owned();
        r.append("...");
        r
    }
}

/// A text of at most `max_chars` characters comes back unchanged, and a
/// longer one comes back exactly `max_chars` long where `max_chars >= 3`.
pub proof fn lemma_truncated_length(s: Seq<char>, max_chars: nat)
    ensures
        s.len() <= max_chars ==> truncated(s, max_chars) == s,
        s.len() > max_chars && max_chars >= 3 ==> truncated(s, max_chars).len() == max_chars,
        s.len() > max_chars && max_chars < 3 ==> truncated(s, max_chars) == "..."@,
{
    reveal_strlit("...");
    if s.len() > max_chars && max_chars < 3 {
        assert(s.take(0) + "..."@ =~= "..."@);
    }
}

/// The columns that each character of a text takes when it stands alone; a
/// control character takes none.
pub open spec fn column_widths(s: Seq<char>) -> Seq<usize> {
    Seq::new(
        s.len(),
        |i: int|
            match char_columns(s[i]) {
                Some(w) => w,
                None => 0usize,
            },
    )
}

/// The sum of the first `n` widths.
pub open spec fn columns_of_prefix(widths: Seq<usize>, n: int) -> int
    decreases n,
{
    if n <= 0 {
        0
    } else {
        columns_of_prefix(widths, n - 1) + widths[n - 1]
    }
}

/// How many leading characters fit into `target` columns: the length of the
/// longest prefix whose widths sum to at most `target`.
pub open spec fn fitting_len(widths: Seq<usize>, target: int) -> int
    decreases widths.len(),
{
    if widths.len() == 0 || widths[0] > target {
        0
    } else {
        1 + fitting_len(widths.drop_first(), target - widths[0])
    }
}

/// A text that is wider than its space, cut to `target` columns and closed
/// with an ellipsis.
pub open spec fn clipped(s: Seq<char>, widths: Seq<usize>, target: int) -> Seq<char> {
    s.take(fitting_len(widths, target)).push('…')
}

/// A text cut to at most `max_width` columns: a text that is wider keeps
/// the characters that fit into `max_width - 1` columns and ends in an
/// ellipsis, which takes the last column.
pub open spec fn truncated_to_width(s: Seq<char>, max_width: usize) -> Seq<char> {
    if text_columns(s) <= max_width {
        s
    } else {
        clipped(
            s,
            column_widths(s),
            if max_width >= 1 {
                max_width - 1
            } else {
                0
            },
        )
    }
}

/// One character with the columns it takes.
pub struct Glyph {
    pub ch: char,
    pub width: usize,
}

impl Glyph {
    pub fn new(ch: char, width: usize) -> (r: Self)
        ensures
            r.ch == ch,
            r.width == width,
    {
        Glyph { ch, width }
    }
}

/// The characters of a row of cells.
pub open spec fn glyph_chars(cells: Seq<Glyph>) -> Seq<char> {
    Seq::new(cells.len(), |i: int| cells[i].ch)
}

/// The widths of a row of cells.
pub open spec fn glyph_widths(cells: Seq<Glyph>) -> Seq<usize> {
    Seq::new(cells.len(), |i: int| cells[i].width)
}

proof fn lemma_fitting_len_step(widths: Seq<usize>, target: int, n: int)
    requires
        0 <= n < widths.len(),
        columns_of_prefix(widths, n) <= target,
        fitting_len(widths.skip(n), target - columns_of_prefix(widths, n)) + n == fitting_len(
            widths,
            target,
        ),
    ensures
        widths[n] <= target - columns_of_prefix(widths, n) ==> fitting_len(
            widths.skip(n + 1),
            target - columns_of_prefix(widths, n + 1),
        ) + n + 1 == fitting_len(widths, target),
        widths[n] > target - columns_of_prefix(widths, n) ==> fitting_len(widths, target) == n,
{
    let rest = widths.skip(n);
    assert(rest[0] == widths[n]);
    assert(rest.drop_first() =~= widths.skip(n + 1));
}

/// Keeps the leading cells that fit into `target` columns and appends an
/// ellipsis.
pub fn clip_to_columns(cells: &Vec<Glyph>, target: usize) -> (r: String)
    ensures
        r@ == clipped(glyph_chars(cells@), glyph_widths(cells@), target as int),
{
    let ghost chars = glyph_chars(cells@);
    let ghost widths = glyph_widths(cells@);
    let mut result = String::new();
    let mut width: usize = 0;
    let mut i: usize = 0;
    assert(widths.skip(0) =~= widths);
    while i < cells.len() && cells[i].width <= target - width
        invariant
            chars == glyph_chars(cells@),
            widths == glyph_widths(cells@),
            0 <= i <= cells.len(),
            width <= target,
            width == columns_of_prefix(widths, i as int),
            result@ == chars.take(i as int),
            fitting_len(widths.skip(i as int), target - width) + i == fitting_len(
                widths,
                target as int,
            ),
        decreases cells.len() - i,
    {
        proof {
            lemma_fitting_len_step(widths, target as int, i as int);
        }
        string_push(&mut result, cells[i].ch);
        width = width + cells[i].width;
        i = i + 1;
        assert(result@ =~= chars.take(i as int));
    }
    proof {
        if i < cells.len() {
            lemma_fitting_len_step(widths, target as int, i as int);
        } else {
            assert(widths.skip(i as int) =~= Seq::<usize>::empty());
        }
    }
    string_push(&mut result, '…');
    result
}

/// A text of which the width and the cells are known, cut to at most
/// `max_width` columns: unchanged where the width fits, else the cells that
/// fit into `max_width - 1` columns and an ellipsis.
pub open spec fn fitted(s: Seq<char>, width: usize, cells: Seq<Glyph>, max_width: usize) -> Seq<
    char,
> {
    if width <= max_width {
        s
    } else {
        clipped(
            glyph_chars(cells),
            glyph_widths(cells),
            if max_width >= 1 {
                max_width - 1
            } else {
                0
            },
        )
    }
}

/// Cuts a text of which the width and the cells are known: see `fitted`.
pub fn fit_to_width(s: &str, width: usize, cells: &Vec<Glyph>, max_width: usize) -> (r: String)
    ensures
        r@ == fitted(s@, width, cells@, max_width),
{
    if width <= max_width {
        return s.to_owned();
    }
    let target: usize = if max_width >= 1 {
        max_width - 1
    } else {
        0
    };
    clip_to_columns(cells, target)
}

/// The characters of a text, each with the columns it takes when it stands
/// alone; a control character takes none.
pub fn glyphs_of(s: &str) -> (cells: Vec<Glyph>)
    ensures
        glyph_chars(cells@) == s@,
        glyph_widths(cells@) == column_widths(s@),
{
    let chars = chars_of(s);
    let mut cells: Vec<Glyph> = Vec::new();
    let mut i: usize = 0;
    while i < chars.len()
        invariant
            chars@ == s@,
            0 <= i <= chars.len(),
            cells@.len() == i,
            forall|j: int|
                0 <= j < i ==> (#[trigger] cells@[j]).ch == s@[j] && cells@[j].width
                    == column_widths(s@)[j],
        decreases chars.len() - i,
    {
        let c: char = chars[i];
        let w: usize = match char_width(c) {
            Some(w) => w,
            None => 0,
        };
        cells.push(Glyph::new(c, w));
        i = i + 1;
    }
    assert(glyph_chars(cells@) =~= s@);
    assert(glyph_widths(cells@) =~= column_widths(s@));
    cells
}

/// Cuts a text to at most `max_width` terminal columns: see
/// `truncated_to_width`.
pub fn truncate_to_width(s: &str, max_width: usize) -> (r: String)
    ensures
        r@ == truncated_to_width(s@, max_width),
{
    let current_width: usize = str_width(s);
    let cells = glyphs_of(s);
    fit_to_width(s, current_width, &cells, max_width)
}

/// The characters that `fitting_len` keeps fit into the target, and the next
/// character, where there is one, would not fit any more.
pub proof fn lemma_fitting_len_is_longest(widths: Seq<usize>, target: int)
    requires
        target >= 0,
    ensures
        0 <= fitting_len(widths, target) <= widths.len(),
        columns_of_prefix(widths, fitting_len(widths, target)) <= target,
        fitting_len(widths, target) < widths.len() ==> columns_of_prefix(
            widths,
            fitting_len(widths, target) + 1,
        ) > target,
    decreases widths.len(),
{
    if widths.len() == 0 || widths[0] > target {
        assert(columns_of_prefix(widths, 0) == 0);
        if widths.len() > 0 {
            assert(columns_of_prefix(widths, 1) == columns_of_prefix(widths, 0) + widths[0]);
        }
    } else {
        let rest = widths.drop_first();
        let t = target - widths[0];
        lemma_fitting_len_is_longest(rest, t);
        let n = fitting_len(rest, t);
        lemma_prefix_shift(widths, n);
        if n < rest.len() {
            lemma_prefix_shift(widths, n + 1);
        }
    }
}

proof fn lemma_prefix_shift(widths: Seq<usize>, n: int)
    requires
        widths.len() > 0,
        0 <= n < widths.len(),
    ensures
        columns_of_prefix(widths, n + 1) == widths[0] + columns_of_prefix(widths.drop_first(), n),
    decreases n,
{
    if n == 0 {
        assert(columns_of_prefix(widths, 0) == 0);
        assert(columns_of_prefix(widths, 1) == columns_of_prefix(widths, 0) + widths[0]);
    } else {
        lemma_prefix_shift(widths, n - 1);
        assert(widths.drop_first()[n - 1] == widths[n]);
    }
}


/// The order of texts by their characters, as in a dictionary whose
/// alphabet is the code chart: the first place in which two texts differ
/// decides, and a text stands before every text that continues it.
pub open spec fn lex_le(a: Seq<char>, b: Seq<char>) -> bool
    decreases a.len(),
{
    if a.len() == 0 {
        true
    } else if b.len() == 0 {
        false
    } else if a[0] != b[0] {
        a[0] < b[0]
    } else {
        lex_le(a.drop_first(), b.drop_first())
    }
}

/// Of two texts one stands before the other or they are the same.
pub proof fn lemma_lex_total(a: Seq<char>, b: Seq<char>)
    ensures
        lex_le(a, b) || lex_le(b, a),
    decreases a.len(),
{
    if a.len() > 0 && b.len() > 0 && a[0] == b[0] {
        lemma_lex_total(a.drop_first(), b.drop_first());
    }
}

/// The order of texts is transitive.
pub proof fn lemma_lex_transitive(a: Seq<char>, b: Seq<char>, c: Seq<char>)
    requires
        lex_le(a, b),
        lex_le(b, c),
    ensures
        lex_le(a, c),
    decreases a.len(),
{
    if a.len() > 0 && b.len() > 0 && c.len() > 0 && a[0] == b[0] && b[0] == c[0] {
        lemma_lex_transitive(a.drop_first(), b.drop_first(), c.drop_first());
    }
}

/// Two texts of which each stands before the other are the same.
pub proof fn lemma_lex_antisymmetric(a: Seq<char>, b: Seq<char>)
    requires
        lex_le(a, b),
        lex_le(b, a),
    ensures
        a == b,
    decreases a.len(),
{
    if a.len() > 0 && b.len() > 0 {
        lemma_lex_antisymmetric(a.drop_first(), b.drop_first());
        assert(a =~= seq![a[0]] + a.drop_first());
        assert(b =~= seq![b[0]] + b.drop_first());
    } else {
        assert(a =~= b);
    }
}

proof fn lemma_lex_skip(a: Seq<char>, b: Seq<char>, i: int)
    requires
        0 <= i < a.len(),
        i < b.len(),
        a[i] == b[i],
    ensures
        lex_le(a.skip(i), b.skip(i)) == lex_le(a.skip(i + 1), b.skip(i + 1)),
{
    assert(a.skip(i).drop_first() =~= a.skip(i + 1));
    assert(b.skip(i).drop_first() =~= b.skip(i + 1));
}

/// Decides the order of two texts: see `lex_le`.
pub fn text_le(a: &str, b: &str) -> (r: bool)
    ensures
        r == lex_le(a@, b@),
{
    let x = chars_of(a);
    let y = chars_of(b);
    let mut i: usize = 0;
    assert(a@.skip(0) =~= a@);
    assert(b@.skip(0) =~= b@);
    while i < x.len() && i < y.len()
        invariant
            x@ == a@,
            y@ == b@,
            0 <= i <= x.len(),
            i <= y.len(),
            lex_le(a@, b@) == lex_le(a@.skip(i as int), b@.skip(i as int)),
        decreases x.len() - i,
    {
        if x[i] != y[i] {
            return x[i] < y[i];
        }
        proof {
            lemma_lex_skip(a@, b@, i as int);
        }
        i = i + 1;
    }
    i == x.len()
}
} // verus!
