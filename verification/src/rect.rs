//! The axis-aligned rectangle primitive: normalization, containment,
//! clamped constraining, and text parsing of predefined-region lines.
//!
//! Coordinates are integers in canvas space (one unit per pixel).  A
//! rectangle's width and height may be transiently negative while a drag is
//! in progress; `normalized` folds the sign into the origin.

use vstd::prelude::*;

verus! {

/// Side length of the square corner handles, in pixels.
pub const HANDLE_SIZE: i64 = 14;

/// Half-width of the grab band that runs along each edge of the selection.
pub const EDGE_GRAB_WIDTH: i64 = 8;

/// Minimum width and height a finalized selection is stretched to.
pub const MIN_SIZE: i64 = 20;

/// Largest magnitude accepted for a canvas coordinate or screen dimension.
/// Far beyond any real display, and small enough that every sum the
/// geometry forms stays well inside `i64`.
pub const COORD_LIMIT: i64 = 0x1000_0000_0000;

/// Headroom bound for intermediate rectangles (un-normalized, mid-resize):
/// their fields stay far below this, and sums of two such values still fit
/// in `i64`.
pub const RANGE_LIMIT: i64 = 0x1000_0000_0000_0000;

/// The mathematical value of a rectangle: unbounded integer coordinates.
pub ghost struct RectModel {
    pub x: int,
    pub y: int,
    pub w: int,
    pub h: int,
}

/// A rectangle in canvas space.  `width` and `height` may be negative while
/// a creation or resize drag is under way.
#[derive(Debug, Clone, Copy, PartialEq, Eq, Structural, Default)]
pub struct Rect {
    pub x: i64,
    pub y: i64,
    pub width: i64,
    pub height: i64,
}

impl View for Rect {
    type V = RectModel;

    open spec fn view(&self) -> RectModel {
        RectModel { x: self.x as int, y: self.y as int, w: self.width as int, h: self.height as int }
    }
}

/// Every field of `r` has magnitude at most `b`.
pub open spec fn rect_within(r: RectModel, b: int) -> bool {
    &&& -b <= r.x <= b
    &&& -b <= r.y <= b
    &&& -b <= r.w <= b
    &&& -b <= r.h <= b
}

/// A single coordinate within the accepted canvas range.
pub open spec fn coord_ok(v: int) -> bool {
    -(COORD_LIMIT as int) <= v <= COORD_LIMIT as int
}

/// A well-formed stored rectangle: origin within the coordinate range,
/// dimensions within twice of it (a dimension is a difference of two
/// coordinates).
pub open spec fn rect_wf(r: RectModel) -> bool {
    &&& coord_ok(r.x)
    &&& coord_ok(r.y)
    &&& -2 * (COORD_LIMIT as int) <= r.w <= 2 * (COORD_LIMIT as int)
    &&& -2 * (COORD_LIMIT as int) <= r.h <= 2 * (COORD_LIMIT as int)
}

/// The normalized form: negative dimensions folded into the origin, so that
/// width and height come out non-negative.
pub open spec fn norm(r: RectModel) -> RectModel {
    let (x, w) = if r.w < 0 { (r.x + r.w, -r.w) } else { (r.x, r.w) };
    let (y, h) = if r.h < 0 { (r.y + r.h, -r.h) } else { (r.y, r.h) };
    RectModel { x, y, w, h }
}

/// Inclusive containment of a point, on the normalized form.
pub open spec fn rect_contains(r: RectModel, px: int, py: int) -> bool {
    let n = norm(r);
    &&& n.x <= px <= n.x + n.w
    &&& n.y <= py <= n.y + n.h
}

/// The constraining pass: normalize, stretch to the minimum size, clamp the
/// origin to the screen, shifting it back when origin plus size overruns,
/// with a final safety clamp of the size to the screen bound.
pub open spec fn constrained(r: RectModel, sw: int, sh: int) -> RectModel {
    let n = norm(r);
    let w1 = if n.w < MIN_SIZE as int { MIN_SIZE as int } else { n.w };
    let h1 = if n.h < MIN_SIZE as int { MIN_SIZE as int } else { n.h };
    let x1 = if n.x < 0 { 0 } else { n.x };
    let y1 = if n.y < 0 { 0 } else { n.y };
    let x2 = if x1 + w1 > sw { sw - w1 } else { x1 };
    let y2 = if y1 + h1 > sh { sh - h1 } else { y1 };
    let x3 = if x2 < 0 { 0 } else { x2 };
    let y3 = if y2 < 0 { 0 } else { y2 };
    let w2 = if w1 > sw { sw } else { w1 };
    let h2 = if h1 > sh { sh } else { h1 };
    RectModel { x: x3, y: y3, w: w2, h: h2 }
}

/// A whitespace character, per the Unicode white-space set: the separator
/// between the two corner tokens of a predefined-region line.
pub open spec fn is_space_char(c: char) -> bool {
    ||| 9 <= c as u32 <= 13
    ||| c as u32 == 32
    ||| c as u32 == 0x85
    ||| c as u32 == 0xA0
    ||| c as u32 == 0x1680
    ||| 0x2000 <= c as u32 <= 0x200A
    ||| c as u32 == 0x2028
    ||| c as u32 == 0x2029
    ||| c as u32 == 0x202F
    ||| c as u32 == 0x205F
    ||| c as u32 == 0x3000
}

/// A decimal digit.
pub open spec fn is_digit_char(c: char) -> bool {
    48 <= c as u32 <= 57
}

/// The numeric value of a decimal digit.
pub open spec fn digit_val(c: char) -> int {
    c as u32 - 48
}

/// Index of the first non-space character at or after `i` (or the length).
pub open spec fn skip_spaces(s: Seq<char>, i: int) -> int
    decreases s.len() - i,
{
    if 0 <= i < s.len() && is_space_char(s[i]) {
        skip_spaces(s, i + 1)
    } else {
        i
    }
}

/// Index of the first space character at or after `i` (or the length): the
/// end of the token starting at `i`.
pub open spec fn token_end(s: Seq<char>, i: int) -> int
    decreases s.len() - i,
{
    if 0 <= i < s.len() && !is_space_char(s[i]) {
        token_end(s, i + 1)
    } else {
        i
    }
}

/// Index of the first occurrence of `c` in `s` (or the length when absent).
pub open spec fn find_first(s: Seq<char>, c: char) -> int
    decreases s.len(),
{
    if s.len() == 0 {
        0
    } else if s[0] == c {
        0
    } else {
        1 + find_first(s.subrange(1, s.len() as int), c)
    }
}

/// Every character is a decimal digit.
pub open spec fn all_digits(s: Seq<char>) -> bool {
    forall|i: int| 0 <= i < s.len() ==> is_digit_char(s[i])
}

/// The value of a string of decimal digits, most significant first.
pub open spec fn digits_val(s: Seq<char>) -> int
    decreases s.len(),
{
    if s.len() == 0 {
        0
    } else {
        digits_val(s.drop_last()) * 10 + digit_val(s.last())
    }
}

/// A coordinate token: an optional minus sign, then one or more digits,
/// whose value stays within the accepted coordinate range.
pub open spec fn valid_coord_token(s: Seq<char>) -> bool {
    if s.len() > 0 && s[0] == '-' {
        let d = s.subrange(1, s.len() as int);
        d.len() > 0 && all_digits(d) && digits_val(d) <= COORD_LIMIT as int
    } else {
        s.len() > 0 && all_digits(s) && digits_val(s) <= COORD_LIMIT as int
    }
}

/// The value of a coordinate token.
pub open spec fn coord_token_val(s: Seq<char>) -> int {
    if s.len() > 0 && s[0] == '-' {
        -digits_val(s.subrange(1, s.len() as int))
    } else {
        digits_val(s)
    }
}

/// A comma-pair token `x,y`: exactly one comma, a coordinate token on each
/// side.
pub open spec fn pair_val(t: Seq<char>) -> Option<(int, int)> {
    let k = find_first(t, ',');
    if k == t.len() {
        None
    } else {
        let left = t.subrange(0, k);
        let right = t.subrange(k + 1, t.len() as int);
        if find_first(right, ',') == right.len() && valid_coord_token(left)
            && valid_coord_token(right) {
            Some((coord_token_val(left), coord_token_val(right)))
        } else {
            None
        }
    }
}

/// The predefined-region line format: two comma-pairs separated by
/// whitespace, read as opposite corners; lines whose derived width or
/// height is not positive are rejected.
pub open spec fn spec_parse(s: Seq<char>) -> Option<RectModel> {
    let a0 = skip_spaces(s, 0);
    let a1 = token_end(s, a0);
    let b0 = skip_spaces(s, a1);
    let b1 = token_end(s, b0);
    let b2 = skip_spaces(s, b1);
    if a1 == a0 || b1 == b0 || b2 != s.len() {
        None
    } else {
        match (pair_val(s.subrange(a0, a1)), pair_val(s.subrange(b0, b1))) {
            (Some(p1), Some(p2)) => {
                let w = p2.0 - p1.0;
                let h = p2.1 - p1.1;
                if w > 0 && h > 0 {
                    Some(RectModel { x: p1.0, y: p1.1, w, h })
                } else {
                    None
                }
            },
            _ => None,
        }
    }
}

impl Rect {
    pub fn new(x: i64, y: i64, width: i64, height: i64) -> (r: Rect)
        ensures
            r@ == (RectModel { x: x as int, y: y as int, w: width as int, h: height as int }),
    {
        Rect { x, y, width, height }
    }

    /// Read a predefined-region line of the form `x1,y1 x2,y2`, the two
    /// tokens giving opposite corners.  Malformed lines and lines whose
    /// derived width or height is not positive yield nothing.
    pub fn parse(s: &str) -> (r: Option<Rect>)
        ensures
            (r is Some) == (spec_parse(s@) is Some),
            r is Some ==> r->0@ == spec_parse(s@)->0,
            r is Some ==> rect_wf(r->0@) && r->0@.w > 0 && r->0@.h > 0,
    {
        let n = s.unicode_len();
        let a0 = skip_spaces_x(s, 0, n);
        let a1 = token_end_x(s, a0, n);
        let b0 = skip_spaces_x(s, a1, n);
        let b1 = token_end_x(s, b0, n);
        let b2 = skip_spaces_x(s, b1, n);
        if a1 == a0 || b1 == b0 || b2 != n {
            return None;
        }
        let p1 = parse_pair(s, a0, a1, n);
        let p2 = parse_pair(s, b0, b1, n);
        match (p1, p2) {
            (Some(q1), Some(q2)) => {
                let w = q2.0 - q1.0;
                let h = q2.1 - q1.1;
                if w > 0 && h > 0 {
                    Some(Rect::new(q1.0, q1.1, w, h))
                } else {
                    None
                }
            },
            _ => None,
        }
    }

    /// The rectangle with non-negative width and height covering the same
    /// area.
    pub fn normalized(&self) -> (r: Rect)
        requires
            rect_within(self@, RANGE_LIMIT as int),
        ensures
            r@ == norm(self@),
    {
        let (x, width) = if self.width < 0 {
            (self.x + self.width, -self.width)
        } else {
            (self.x, self.width)
        };
        let (y, height) = if self.height < 0 {
            (self.y + self.height, -self.height)
        } else {
            (self.y, self.height)
        };
        Rect { x, y, width, height }
    }

    /// Inclusive-bounds test on the normalized form.
    pub fn contains(&self, px: i64, py: i64) -> (b: bool)
        requires
            rect_within(self@, RANGE_LIMIT as int),
        ensures
            b == rect_contains(self@, px as int, py as int),
    {
        let n = self.normalized();
        px >= n.x && px <= n.x + n.width && py >= n.y && py <= n.y + n.height
    }

    /// The x coordinate of the right edge.
    pub fn right(&self) -> (v: i64)
        requires
            rect_within(self@, RANGE_LIMIT as int),
        ensures
            v == self@.x + self@.w,
    {
        self.x + self.width
    }

    /// The y coordinate of the bottom edge.
    pub fn bottom(&self) -> (v: i64)
        requires
            rect_within(self@, RANGE_LIMIT as int),
        ensures
            v == self@.y + self@.h,
    {
        self.y + self.height
    }

    /// Normalize, enforce the minimum size, and clamp into the screen.
    pub fn constrain(&self, screen_width: i64, screen_height: i64) -> (r: Rect)
        requires
            rect_within(self@, RANGE_LIMIT as int),
            coord_ok(screen_width as int),
            coord_ok(screen_height as int),
        ensures
            r@ == constrained(self@, screen_width as int, screen_height as int),
    {
        let mut rect = self.normalized();

        // Enforce minimum size
        if rect.width < MIN_SIZE {
            rect.width = MIN_SIZE;
        }
        if rect.height < MIN_SIZE {
            rect.height = MIN_SIZE;
        }

        // Keep within screen bounds
        if rect.x < 0 {
            rect.x = 0;
        }
        if rect.y < 0 {
            rect.y = 0;
        }

        if rect.x + rect.width > screen_width {
            rect.x = screen_width - rect.width;
        }
        if rect.y + rect.height > screen_height {
            rect.y = screen_height - rect.height;
        }

        // Final bounds check
        if rect.x < 0 {
            rect.x = 0;
        }
        if rect.y < 0 {
            rect.y = 0;
        }
        if rect.width > screen_width {
            rect.width = screen_width;
        }
        if rect.height > screen_height {
            rect.height = screen_height;
        }

        rect
    }
}

/// The regions parsed from a list of lines, malformed lines silently
/// skipped, in input order.
pub open spec fn spec_collect_regions(lines: Seq<Seq<char>>) -> Seq<RectModel>
    decreases lines.len(),
{
    if lines.len() == 0 {
        Seq::empty()
    } else {
        spec_collect_regions(lines.drop_last()) + (match spec_parse(lines.last()) {
            Some(m) => seq![m],
            None => Seq::<RectModel>::empty(),
        })
    }
}

/// Parse every line as a predefined region, silently skipping malformed
/// ones.  Every region returned is well formed with positive dimensions.
pub fn collect_regions(lines: &Vec<String>) -> (v: Vec<Rect>)
    ensures
        v@.map_values(|r: Rect| r@) == spec_collect_regions(
            lines@.map_values(|l: String| l@),
        ),
        forall|i: int| 0 <= i < v@.len() ==> rect_wf(#[trigger] v@[i]@) && v@[i]@.w > 0
            && v@[i]@.h > 0,
{
    let ghost lviews = lines@.map_values(|l: String| l@);
    let mut v: Vec<Rect> = Vec::new();
    let n = lines.len();
    let mut i: usize = 0;
    proof {
        assert(lviews.subrange(0, 0) =~= Seq::<Seq<char>>::empty());
        assert(v@.map_values(|r: Rect| r@) =~= spec_collect_regions(lviews.subrange(0, 0)));
    }
    while i < n
        invariant
            0 <= i <= n,
            n == lines@.len(),
            lviews == lines@.map_values(|l: String| l@),
            v@.map_values(|r: Rect| r@) == spec_collect_regions(lviews.subrange(0, i as int)),
            forall|j: int| 0 <= j < v@.len() ==> rect_wf(#[trigger] v@[j]@) && v@[j]@.w > 0
                && v@[j]@.h > 0,
        decreases n - i,
    {
        let ghost before = v@.map_values(|r: Rect| r@);
        let line: &String = &lines[i];
        if let Some(r) = Rect::parse(line.as_str()) {
            v.push(r);
        }
        proof {
            let sub1 = lviews.subrange(0, i as int + 1);
            assert(sub1.drop_last() =~= lviews.subrange(0, i as int));
            assert(sub1.last() == lviews[i as int]);
            assert(lviews[i as int] == lines@[i as int]@);
            assert(v@.map_values(|r: Rect| r@) =~= before + (match spec_parse(lviews[i as int]) {
                Some(m) => seq![m],
                None => Seq::<RectModel>::empty(),
            }));
            assert(v@.map_values(|r: Rect| r@) =~= spec_collect_regions(sub1));
        }
        i = i + 1;
    }
    proof {
        assert(lviews.subrange(0, n as int) =~= lviews);
    }
    v
}

/// `find_first` points at the first occurrence of `c`: it stays within the
/// sequence, lands on `c` when `c` occurs, and everything before it differs
/// from `c`.
proof fn lemma_find_first_props(t: Seq<char>, c: char)
    ensures
        0 <= find_first(t, c) <= t.len(),
        find_first(t, c) < t.len() ==> t[find_first(t, c)] == c,
        forall|j: int| 0 <= j < find_first(t, c) ==> t[j] != c,
    decreases t.len(),
{
    if t.len() == 0 {
    } else if t[0] == c {
    } else {
        let rest = t.subrange(1, t.len() as int);
        lemma_find_first_props(rest, c);
        assert forall|j: int| 0 <= j < find_first(t, c) implies t[j] != c by {
            if j > 0 {
                assert(rest[j - 1] == t[j]);
            }
        }
    }
}

/// An index with the properties of `find_first` is `find_first`.
proof fn lemma_find_first_unique(t: Seq<char>, c: char, k: int)
    requires
        0 <= k <= t.len(),
        k < t.len() ==> t[k] == c,
        forall|j: int| 0 <= j < k ==> t[j] != c,
    ensures
        find_first(t, c) == k,
{
    lemma_find_first_props(t, c);
    let f = find_first(t, c);
    if f < k {
        assert(t[f] != c);
    } else if f > k {
        assert(t[k] != c);
    }
}

/// A string of digits has a non-negative value.
proof fn lemma_digits_val_nonneg(t: Seq<char>)
    requires
        all_digits(t),
    ensures
        digits_val(t) >= 0,
    decreases t.len(),
{
    if t.len() > 0 {
        assert forall|i: int| 0 <= i < t.drop_last().len() implies is_digit_char(
            t.drop_last()[i],
        ) by {
            assert(t.drop_last()[i] == t[i]);
        }
        lemma_digits_val_nonneg(t.drop_last());
        assert(is_digit_char(t[t.len() - 1]));
    }
}

/// Appending digits never shrinks the value: a prefix of a digit string is
/// worth at most the whole.
proof fn lemma_digits_val_prefix(t: Seq<char>, m: int)
    requires
        all_digits(t),
        0 <= m <= t.len(),
    ensures
        digits_val(t.subrange(0, m)) <= digits_val(t),
    decreases t.len() - m,
{
    if m == t.len() {
        assert(t.subrange(0, m) =~= t);
    } else {
        lemma_digits_val_prefix(t, m + 1);
        let u = t.subrange(0, m + 1);
        assert(u.drop_last() =~= t.subrange(0, m));
        assert(u.last() == t[m]);
        assert forall|i: int| 0 <= i < t.subrange(0, m).len() implies is_digit_char(
            t.subrange(0, m)[i],
        ) by {
            assert(t.subrange(0, m)[i] == t[i]);
        }
        lemma_digits_val_nonneg(t.subrange(0, m));
        assert(is_digit_char(t[m]));
    }
}

/// Whether the character at `i` is whitespace.
fn space_at(s: &str, i: usize) -> (b: bool)
    requires
        i < s@.len(),
    ensures
        b == is_space_char(s@[i as int]),
{
    let c = s.get_char(i);
    let u = c as u32;
    (9 <= u && u <= 13) || u == 32 || u == 0x85 || u == 0xA0 || u == 0x1680
        || (0x2000 <= u && u <= 0x200A) || u == 0x2028 || u == 0x2029 || u == 0x202F
        || u == 0x205F || u == 0x3000
}

/// First non-space index at or after `from`.
fn skip_spaces_x(s: &str, from: usize, n: usize) -> (r: usize)
    requires
        n as nat == s@.len(),
        from <= n,
    ensures
        from <= r <= n,
        r as int == skip_spaces(s@, from as int),
{
    let mut i = from;
    loop
        invariant
            from <= i <= n,
            n as nat == s@.len(),
            skip_spaces(s@, from as int) == skip_spaces(s@, i as int),
        ensures
            from <= i <= n,
            i as int == skip_spaces(s@, from as int),
        decreases n - i,
    {
        if i >= n {
            break;
        }
        if !space_at(s, i) {
            break;
        }
        i = i + 1;
    }
    i
}

/// End of the token starting at `from`: the first space index at or after
/// it.
fn token_end_x(s: &str, from: usize, n: usize) -> (r: usize)
    requires
        n as nat == s@.len(),
        from <= n,
    ensures
        from <= r <= n,
        r as int == token_end(s@, from as int),
{
    let mut i = from;
    loop
        invariant
            from <= i <= n,
            n as nat == s@.len(),
            token_end(s@, from as int) == token_end(s@, i as int),
        ensures
            from <= i <= n,
            i as int == token_end(s@, from as int),
        decreases n - i,
    {
        if i >= n {
            break;
        }
        if space_at(s, i) {
            break;
        }
        i = i + 1;
    }
    i
}

/// First comma in `[from, to)`, or `to` when there is none.
fn find_comma(s: &str, from: usize, to: usize, n: usize) -> (r: usize)
    requires
        n as nat == s@.len(),
        from <= to <= n,
    ensures
        from <= r <= to,
        r < to ==> s@[r as int] == ',',
        forall|j: int| from <= j < r ==> s@[j] != ',',
    decreases to - from,
{
    let mut i = from;
    loop
        invariant
            from <= i <= to,
            to <= n,
            n as nat == s@.len(),
            forall|j: int| from <= j < i ==> s@[j] != ',',
        ensures
            from <= i <= to,
            i < to ==> s@[i as int] == ',',
            forall|j: int| from <= j < i ==> s@[j] != ',',
        decreases to - i,
    {
        if i >= to {
            break;
        }
        let c = s.get_char(i);
        if c == ',' {
            break;
        }
        i = i + 1;
    }
    i
}

/// Read the coordinate token standing at `[a, b)` of `s`.
fn parse_coord(s: &str, a: usize, b: usize, n: usize) -> (r: Option<i64>)
    requires
        n as nat == s@.len(),
        a <= b <= n,
    ensures
        ({
            let t = s@.subrange(a as int, b as int);
            &&& (r is Some) == valid_coord_token(t)
            &&& (r is Some ==> r->0 as int == coord_token_val(t))
            &&& (r is Some ==> -(COORD_LIMIT as int) <= r->0 as int <= COORD_LIMIT as int)
        }),
{
    let ghost t = s@.subrange(a as int, b as int);
    if a == b {
        return None;
    }
    assert(t[0] == s@[a as int]);
    let neg = s.get_char(a) == '-';
    let start = if neg { a + 1 } else { a };
    if start == b {
        // a bare minus sign: the digit part is empty
        proof {
            assert(t.subrange(1, t.len() as int).len() == 0);
        }
        return None;
    }
    let ghost d = s@.subrange(start as int, b as int);
    proof {
        if neg {
            assert(t.subrange(1, t.len() as int) =~= d);
        } else {
            assert(t =~= d);
        }
    }
    let mut i = start;
    let mut val: i64 = 0;
    while i < b
        invariant
            start <= i <= b,
            b <= n,
            n as nat == s@.len(),
            a <= start <= b,
            start == if neg { a + 1 } else { a as int },
            neg == (t[0] == '-'),
            t == s@.subrange(a as int, b as int),
            d == s@.subrange(start as int, b as int),
            (if neg { t.subrange(1, t.len() as int) } else { t }) == d,
            0 <= val <= COORD_LIMIT,
            all_digits(s@.subrange(start as int, i as int)),
            val as int == digits_val(s@.subrange(start as int, i as int)),
        decreases b - i,
    {
        let c = s.get_char(i);
        let u = c as u32;
        if u < 48 || u > 57 {
            // a non-digit inside the digit part: the token is rejected
            proof {
                let idx = i - start;
                assert(d[idx] == s@[i as int]);
                assert(!is_digit_char(d[idx]));
                assert(!all_digits(d));
            }
            return None;
        }
        let dv = (u - 48) as i64;
        let nv = val * 10 + dv;
        if nv > COORD_LIMIT {
            // the value can only grow with further digits: out of range
            proof {
                let p = s@.subrange(start as int, i as int + 1);
                assert(p.drop_last() =~= s@.subrange(start as int, i as int));
                assert(p.last() == s@[i as int]);
                assert(digits_val(p) == nv);
                if all_digits(d) {
                    assert(p =~= d.subrange(0, i - start + 1));
                    lemma_digits_val_prefix(d, i - start + 1);
                    assert(digits_val(d) > COORD_LIMIT as int);
                }
            }
            return None;
        }
        proof {
            let p = s@.subrange(start as int, i as int + 1);
            assert(p.drop_last() =~= s@.subrange(start as int, i as int));
            assert(p.last() == s@[i as int]);
            assert forall|j: int| 0 <= j < p.len() implies is_digit_char(p[j]) by {
                if j < p.len() - 1 {
                    assert(p[j] == s@.subrange(start as int, i as int)[j]);
                }
            }
        }
        val = nv;
        i = i + 1;
    }
    proof {
        assert(s@.subrange(start as int, i as int) =~= d);
        lemma_digits_val_nonneg(d);
    }
    if neg {
        Some(-val)
    } else {
        Some(val)
    }
}

/// Read the comma-pair token standing at `[a, b)` of `s`.
fn parse_pair(s: &str, a: usize, b: usize, n: usize) -> (r: Option<(i64, i64)>)
    requires
        n as nat == s@.len(),
        a <= b <= n,
    ensures
        ({
            let t = s@.subrange(a as int, b as int);
            &&& (r is Some) == (pair_val(t) is Some)
            &&& (r is Some ==> (((r->0).0 as int, (r->0).1 as int)) == pair_val(t)->0)
            &&& (r is Some ==> -(COORD_LIMIT as int) <= (r->0).0 as int <= COORD_LIMIT as int)
            &&& (r is Some ==> -(COORD_LIMIT as int) <= (r->0).1 as int <= COORD_LIMIT as int)
        }),
{
    let ghost t = s@.subrange(a as int, b as int);
    let k = find_comma(s, a, b, n);
    proof {
        assert forall|j: int| 0 <= j < k - a implies t[j] != ',' by {
            assert(t[j] == s@[a + j]);
        }
        lemma_find_first_unique(t, ',', k - a);
    }
    if k == b {
        return None;
    }
    let ghost right = t.subrange(k - a + 1, t.len() as int);
    proof {
        assert(right =~= s@.subrange(k as int + 1, b as int));
    }
    let k2 = find_comma(s, k + 1, b, n);
    proof {
        assert forall|j: int| 0 <= j < k2 - (k + 1) implies right[j] != ',' by {
            assert(right[j] == s@[k + 1 + j]);
        }
        if k2 < b {
            assert(right[k2 - (k + 1)] == s@[k2 as int]);
        }
        lemma_find_first_unique(right, ',', k2 - (k + 1));
    }
    if k2 != b {
        return None;
    }
    proof {
        assert(t.subrange(0, k - a) =~= s@.subrange(a as int, k as int));
    }
    let left_v = parse_coord(s, a, k, n);
    let right_v = parse_coord(s, k + 1, b, n);
    match (left_v, right_v) {
        (Some(x), Some(y)) => Some((x, y)),
        _ => None,
    }
}

/// Normalizing is idempotent, and a normalized rectangle has non-negative
/// dimensions.
pub proof fn lemma_norm_idempotent(r: RectModel)
    ensures
        norm(norm(r)) == norm(r),
        norm(r).w >= 0,
        norm(r).h >= 0,
{
}

/// On a screen at least `MIN_SIZE` in both dimensions, the constrained form
/// lies fully on the screen and meets the minimum size.
pub proof fn lemma_constrained_on_screen(r: RectModel, sw: int, sh: int)
    requires
        MIN_SIZE as int <= sw,
        MIN_SIZE as int <= sh,
    ensures
        constrained(r, sw, sh).x >= 0,
        constrained(r, sw, sh).y >= 0,
        constrained(r, sw, sh).x + constrained(r, sw, sh).w <= sw,
        constrained(r, sw, sh).y + constrained(r, sw, sh).h <= sh,
        constrained(r, sw, sh).w >= MIN_SIZE as int,
        constrained(r, sw, sh).h >= MIN_SIZE as int,
{
}

/// With any non-negative screen, the constrained form starts at a
/// non-negative origin, fits the screen, and its fields stay within the
/// coordinate range whenever the screen does.
pub proof fn lemma_constrained_range(r: RectModel, sw: int, sh: int)
    requires
        0 <= sw <= COORD_LIMIT as int,
        0 <= sh <= COORD_LIMIT as int,
    ensures
        0 <= constrained(r, sw, sh).x,
        0 <= constrained(r, sw, sh).y,
        constrained(r, sw, sh).x + constrained(r, sw, sh).w <= sw,
        constrained(r, sw, sh).y + constrained(r, sw, sh).h <= sh,
        rect_within(constrained(r, sw, sh), COORD_LIMIT as int),
        norm(constrained(r, sw, sh)) == constrained(r, sw, sh),
        constrained(constrained(r, sw, sh), sw, sh) == constrained(r, sw, sh),
{
}

} // verus!

