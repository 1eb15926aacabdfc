//! Boxed-text rendering for banners: splits input into lines, measures
//! their display width (wide characters count double), and draws a border
//! around them.

use vstd::prelude::*;
use vstd::string::StrSliceExecFns;
use crate::text::push_char;

verus! {

/// True for characters rendered two columns wide: the unified ideograph
/// blocks, their extensions, ideographic punctuation and full-width forms.
pub open spec fn spec_is_cjk(c: char) -> bool {
    ||| 0x4e00 <= c as u32 && c as u32 <= 0x9fff
    ||| 0x3400 <= c as u32 && c as u32 <= 0x4dbf
    ||| 0x20000 <= c as u32 && c as u32 <= 0x2a6df
    ||| 0x2a700 <= c as u32 && c as u32 <= 0x2b73f
    ||| 0x2b740 <= c as u32 && c as u32 <= 0x2b81f
    ||| 0x2b820 <= c as u32 && c as u32 <= 0x2ceaf
    ||| 0x3000 <= c as u32 && c as u32 <= 0x303f
    ||| 0xff00 <= c as u32 && c as u32 <= 0xffef
}

/// True for characters rendered two columns wide.
pub fn is_cjk_character(c: char) -> (r: bool)
    ensures
        r == spec_is_cjk(c),
{
    let code = c as u32;
    (0x4e00 <= code && code <= 0x9fff) || (0x3400 <= code && code <= 0x4dbf) || (0x20000 <= code
        && code <= 0x2a6df) || (0x2a700 <= code && code <= 0x2b73f) || (0x2b740 <= code && code
        <= 0x2b81f) || (0x2b820 <= code && code <= 0x2ceaf) || (0x3000 <= code && code <= 0x303f)
        || (0xff00 <= code && code <= 0xffef)
}

/// The display width of the text from position `i` on: two columns per wide
/// character, one per anything else.
pub open spec fn spec_display_width_from(s: Seq<char>, i: int) -> int
    recommends
        0 <= i <= s.len(),
    decreases s.len() - i when 0 <= i <= s.len()
{
    if i >= s.len() {
        0
    } else {
        (if spec_is_cjk(s[i]) {
            2int
        } else {
            1int
        }) + spec_display_width_from(s, i + 1)
    }
}

/// The display width of a line never exceeds two columns per character.
proof fn lemma_display_width_bound(s: Seq<char>, i: int)
    requires
        0 <= i <= s.len(),
    ensures
        0 <= spec_display_width_from(s, i) <= 2 * (s.len() - i),
    decreases s.len() - i,
{
    if i < s.len() {
        lemma_display_width_bound(s, i + 1);
    }
}

/// Measures the display width of a line, counting wide characters double.
pub fn calculate_display_width(line: &str) -> (r: usize)
    requires
        line@.len() <= 0x7fff_ffff,
    ensures
        r == spec_display_width_from(line@, 0),
{
    proof {
        lemma_display_width_bound(line@, 0);
    }
    let n = line.unicode_len();
    let mut width: usize = 0;
    let mut i: usize = n;
    while i > 0
        invariant
            n == line@.len(),
            n <= 0x7fff_ffff,
            0 <= i <= n,
            width == spec_display_width_from(line@, i as int),
            width <= 2 * (n - i),
        decreases i,
    {
        proof {
            lemma_display_width_bound(line@, i - 1);
        }
        i = i - 1;
        if is_cjk_character(line.get_char(i)) {
            width = width + 2;
        } else {
            width = width + 1;
        }
    }
    width
}

/// Splits text into lines; a text becomes the pieces between its newline
/// characters.
pub trait IntoLines {
    /// The lines of the text.
    fn into_lines(self) -> Vec<String>;
}

/// The lines of a character sequence: the pieces between newlines.
pub open spec fn spec_lines_of(s: Seq<char>) -> Seq<Seq<char>>
    decreases s.len(),
{
    if s.len() == 0 {
        seq![Seq::<char>::empty()]
    } else {
        let rest = spec_lines_of(s.drop_last());
        if s.last() == '\n' {
            rest.push(Seq::<char>::empty())
        } else {
            rest.update(rest.len() - 1, rest.last().push(s.last()))
        }
    }
}

/// Splits a text at newline characters.
fn split_lines(s: &str) -> (r: Vec<String>)
    ensures
        r@.len() == spec_lines_of(s@).len(),
        forall|i: int| 0 <= i < r@.len() ==> (#[trigger] r@[i])@ == spec_lines_of(s@)[i],
{
    let n = s.unicode_len();
    let mut r: Vec<String> = Vec::new();
    r.push(String::new());
    let mut i: usize = 0;
    proof {
        assert(s@.take(0) =~= Seq::<char>::empty());
        assert(r@.len() == 1);
        assert(r@[0]@ =~= spec_lines_of(s@.take(0))[0]);
    }
    while i < n
        invariant
            n == s@.len(),
            0 <= i <= n,
            r@.len() == spec_lines_of(s@.take(i as int)).len(),
            r@.len() >= 1,
            forall|j: int|
                0 <= j < r@.len() ==> (#[trigger] r@[j])@ == spec_lines_of(s@.take(i as int))[j],
        decreases n - i,
    {
        let c = s.get_char(i);
        let ghost prefix = s@.take(i as int);
        proof {
            assert(s@.take(i + 1).drop_last() =~= prefix);
            assert(s@.take(i + 1).last() == s@[i as int]);
        }
        if c == '\n' {
            r.push(String::new());
            proof {
                assert forall|j: int|
                    0 <= j < r@.len() implies (#[trigger] r@[j])@ == spec_lines_of(
                    s@.take(i + 1),
                )[j] by {
                    if j < r@.len() - 1 {
                        assert(r@[j]@ == spec_lines_of(prefix)[j]);
                    }
                }
            }
        } else {
            let last = r.len() - 1;
            let ghost old_r = r@;
            let target = &mut r[last];
            push_char(target, c);
            proof {
                assert(r@.len() == old_r.len());
                assert forall|j: int|
                    0 <= j < r@.len() implies (#[trigger] r@[j])@ == spec_lines_of(
                    s@.take(i + 1),
                )[j] by {
                    let lines = spec_lines_of(s@.take(i + 1));
                    let prev = spec_lines_of(prefix);
                    if j < r@.len() - 1 {
                        assert(r@[j] == old_r[j]);
                        assert(lines[j] == prev[j]);
                    } else {
                        assert(lines[j] == prev[j].push(s@[i as int]));
                    }
                }
            }
        }
        i = i + 1;
    }
    proof {
        assert(s@.take(n as int) =~= s@);
    }
    r
}

impl IntoLines for &str {
    fn into_lines(self) -> Vec<String> {
        split_lines(self)
    }
}

impl IntoLines for String {
    fn into_lines(self) -> Vec<String> {
        split_lines(self.as_str())
    }
}

impl IntoLines for &Vec<String> {
    fn into_lines(self) -> Vec<String> {
        let mut lines: Vec<String> = Vec::new();
        let n = self.len();
        let mut i: usize = 0;
        while i < n
            invariant
                n == self@.len(),
                0 <= i <= n,
            decreases n - i,
        {
            let mut pieces = split_lines(self[i].as_str());
            lines.append(&mut pieces);
            i = i + 1;
        }
        lines
    }
}

impl IntoLines for Vec<String> {
    fn into_lines(self) -> Vec<String> {
        (&self).into_lines()
    }
}

impl IntoLines for &[String] {
    fn into_lines(self) -> Vec<String> {
        let mut lines: Vec<String> = Vec::new();
        let n = self.len();
        let mut i: usize = 0;
        while i < n
            invariant
                n == self@.len(),
                0 <= i <= n,
            decreases n - i,
        {
            let mut pieces = split_lines(self[i].as_str());
            lines.append(&mut pieces);
            i = i + 1;
        }
        lines
    }
}

/// Appends `count` copies of a character.
fn push_repeated(out: &mut String, c: char, count: usize)
    ensures
        final(out)@.len() == old(out)@.len() + count,
        final(out)@.subrange(0, old(out)@.len() as int) == old(out)@,
{
    let mut i: usize = 0;
    let ghost base = out@;
    while i < count
        invariant
            0 <= i <= count,
            out@.len() == base.len() + i,
            out@.subrange(0, base.len() as int) == base,
        decreases count - i,
    {
        push_char(out, c);
        i = i + 1;
        proof {
            assert(out@.subrange(0, base.len() as int) =~= base);
        }
    }
}

/// Draws a bordered box around the given lines, optionally centering each
/// line; the box is at least as wide as its widest line, and at least a
/// minimum width when no width is asked for.  No lines give an empty text.
pub fn create_info_box<T: IntoLines>(input: T, width: Option<usize>, center_align: bool) -> (r:
    String)
{
    let lines = input.into_lines();
    if lines.len() == 0 {
        return String::new();
    }
    let mut max_width: usize = 0;
    let n = lines.len();
    let mut i: usize = 0;
    while i < n
        invariant
            n == lines@.len(),
            0 <= i <= n,
            max_width <= usize::MAX / 2,
        decreases n - i,
    {
        if lines[i].as_str().unicode_len() <= 0x7fff_ffff {
            let w = calculate_display_width(lines[i].as_str());
            if w > max_width && w <= usize::MAX / 2 {
                max_width = w;
            }
        }
        i = i + 1;
    }
    let padding: usize = 2;
    let min_width: usize = 30;
    let box_width: usize = match width {
        Some(w) => if w < max_width {
            max_width + padding * 2
        } else {
            w
        },
        None => {
            let padded = max_width + padding * 2;
            if padded > min_width {
                padded
            } else {
                min_width
            }
        },
    };
    if box_width > usize::MAX / 2 {
        return String::new();
    }
    let mut result = String::new();
    push_char(&mut result, '\n');
    result.append("        ");
    push_char(&mut result, '┏');
    push_repeated(&mut result, '━', box_width);
    push_char(&mut result, '┓');
    push_char(&mut result, '\n');
    let mut k: usize = 0;
    while k < n
        invariant
            n == lines@.len(),
            0 <= k <= n,
            box_width <= usize::MAX / 2,
        decreases n - k,
    {
        result.append("        ");
        push_char(&mut result, '┃');
        let line_len = lines[k].as_str().unicode_len();
        if line_len == 0 {
            push_repeated(&mut result, ' ', box_width);
        } else {
            let line_width: usize = if line_len <= 0x7fff_ffff {
                calculate_display_width(lines[k].as_str())
            } else {
                box_width
            };
            if line_width <= usize::MAX - 4 && line_width + 4 <= box_width {
                if center_align {
                    let left_padding = (box_width - line_width) / 2;
                    let right_padding = box_width - line_width - left_padding;
                    push_repeated(&mut result, ' ', left_padding);
                    result.append(lines[k].as_str());
                    push_repeated(&mut result, ' ', right_padding);
                } else {
                    let left_padding: usize = 2;
                    let right_padding = box_width - line_width - left_padding;
                    push_repeated(&mut result, ' ', left_padding);
                    result.append(lines[k].as_str());
                    push_repeated(&mut result, ' ', right_padding);
                }
            } else {
                result.append(lines[k].as_str());
            }
        }
        push_char(&mut result, '┃');
        push_char(&mut result, '\n');
        k = k + 1;
    }
    result.append("        ");
    push_char(&mut result, '┗');
    push_repeated(&mut result, '━', box_width);
    push_char(&mut result, '┛');
    push_char(&mut result, '\n');
    result.append("        ");
    result
}

} // verus!
