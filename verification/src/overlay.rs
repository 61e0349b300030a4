//! Panel style and the text lines the panel shows.

use vstd::prelude::*;
use vstd::string::StringExecFns;
use crate::config::Config;
use crate::text::{dec_digits, decimal, push_str};

verus! {

/// Panel style (derived from the settings).
#[derive(Debug, Clone)]
pub struct PanelStyle {
    pub width: i32,
    pub bg_color: [u8; 3],
    pub bg_alpha: u8,
    pub font_family: String,
    pub font_size: i32,
    pub font_bold: bool,
    pub text_color: [u8; 3],
    pub outline_color: [u8; 3],
    pub outline_size: u8,
}

/// Abstract panel style.
pub struct StyleView {
    pub width: i32,
    pub bg_color: [u8; 3],
    pub bg_alpha: u8,
    pub font_family: Seq<char>,
    pub font_size: i32,
    pub font_bold: bool,
    pub text_color: [u8; 3],
    pub outline_color: [u8; 3],
    pub outline_size: u8,
}

impl View for PanelStyle {
    type V = StyleView;

    open spec fn view(&self) -> StyleView {
        StyleView {
            width: self.width,
            bg_color: self.bg_color,
            bg_alpha: self.bg_alpha,
            font_family: self.font_family@,
            font_size: self.font_size,
            font_bold: self.font_bold,
            text_color: self.text_color,
            outline_color: self.outline_color,
            outline_size: self.outline_size,
        }
    }
}

/// The style the settings `c` describe.
pub open spec fn style_of(c: Config) -> StyleView {
    StyleView {
        width: c.panel_width as i32,
        bg_color: c.bg_color,
        bg_alpha: c.bg_alpha,
        font_family: c.font_family@,
        font_size: c.font_size as i32,
        font_bold: c.font_bold,
        text_color: c.text_color,
        outline_color: c.outline_color,
        outline_size: c.outline_size,
    }
}

impl PanelStyle {
    /// This style is the one the settings `c` describe.
    pub open spec fn follows(&self, c: Config) -> bool {
        self@ == style_of(c)
    }

    /// The style the settings describe.
    pub fn from_config(c: &Config) -> (r: Self)
        ensures
            r.follows(*c),
    {
        PanelStyle {
            width: c.panel_width as i32,
            bg_color: c.bg_color,
            bg_alpha: c.bg_alpha,
            font_family: c.font_family.clone(),
            font_size: c.font_size as i32,
            font_bold: c.font_bold,
            text_color: c.text_color,
            outline_color: c.outline_color,
            outline_size: c.outline_size,
        }
    }

    /// Panel height: a title row and ten message rows.
    pub fn height(&self) -> (r: i32)
        requires
            i32::MIN <= self.font_size + 6,
            i32::MIN <= 10 * (self.font_size + 6),
            40 + 10 * (self.font_size + 6) + 16 <= i32::MAX,
        ensures
            r == 40 + 10 * (self.font_size + 6) + 16,
    {
        40 + 10 * (self.font_size + 6) + 16
    }

    /// Height of one message row.
    pub fn row_h(&self) -> (r: i32)
        requires
            self.font_size + 6 <= i32::MAX,
        ensures
            r == self.font_size + 6,
    {
        self.font_size + 6
    }
}

/// The `COLORREF` value (0x00BBGGRR) of an RGB colour.
pub open spec fn colorref_of(rgb: [u8; 3]) -> int {
    rgb[0] + 256 * rgb[1] + 65536 * rgb[2]
}

/// The `COLORREF` value (0x00BBGGRR) of an RGB colour.
pub fn colorref_value(rgb: [u8; 3]) -> (r: u32)
    ensures
        r == colorref_of(rgb),
{
    let r = rgb[0] as u32;
    let g = rgb[1] as u32;
    let b = rgb[2] as u32;
    let v = (b << 16) | (g << 8) | r;
    assert(v == r + 256 * g + 65536 * b) by (bit_vector)
        requires
            r < 256,
            g < 256,
            b < 256,
            v == (b << 16) | (g << 8) | r,
    ;
    v
}

/// What the panel shows.
#[derive(Debug)]
#[allow(inconsistent_fields)]
pub enum OverlayContent {
    /// Home page: primary messages, active scheme number and name.
    Home { items: Vec<String>, active: u8, name: String },
    /// Secondary panel `index` and its ten messages.
    Secondary { index: u8, items: [String; 10] },
    /// Search page: query and results (number, name).
    Search { query: String, results: Vec<(u8, String)> },
}

/// Abstract panel content.
#[allow(inconsistent_fields)]
pub enum ContentView {
    Home { items: Seq<Seq<char>>, active: u8, name: Seq<char> },
    Secondary { index: u8, items: Seq<Seq<char>> },
    Search { query: Seq<char>, results: Seq<(u8, Seq<char>)> },
}

impl View for OverlayContent {
    type V = ContentView;

    open spec fn view(&self) -> ContentView {
        match self {
            OverlayContent::Home { items, active, name } => ContentView::Home {
                items: items@.map_values(|s: String| s@),
                active: *active,
                name: name@,
            },
            OverlayContent::Secondary { index, items } => ContentView::Secondary {
                index: *index,
                items: items@.map_values(|s: String| s@),
            },
            OverlayContent::Search { query, results } => ContentView::Search {
                query: query@,
                results: results@.map_values(|e: (u8, String)| (e.0, e.1@)),
            },
        }
    }
}

/// A line of text drawn at `(x, y)`.
#[derive(Debug)]
pub struct TextLine {
    pub x: i32,
    pub y: i32,
    pub text: String,
}

/// Number of message lines under the title (at most nine, ten on a secondary panel).
pub open spec fn item_count(c: ContentView) -> int {
    match c {
        ContentView::Home { items, .. } => if items.len() < 9 { items.len() as int } else { 9 },
        ContentView::Secondary { items, .. } => if items.len() < 10 { items.len() as int } else { 10 },
        ContentView::Search { results, .. } => if results.len() < 9 { results.len() as int } else { 9 },
    }
}

/// The title line.
pub open spec fn title_text(c: ContentView) -> Seq<char> {
    match c {
        ContentView::Home { active, name, .. } => "方案"@ + dec_digits(active as nat) + ": "@ + name,
        ContentView::Secondary { index, .. } => "二级面板 "@ + dec_digits(index as nat),
        ContentView::Search { query, .. } => "搜索: "@ + query,
    }
}

/// Message line `i`: numbered from 1 (from 0 on a secondary panel); search
/// results also show the scheme number in brackets.
pub open spec fn item_text(c: ContentView, i: int) -> Seq<char> {
    match c {
        ContentView::Home { items, .. } => dec_digits((i + 1) as nat) + ". "@ + items[i],
        ContentView::Secondary { items, .. } => dec_digits(i as nat) + ". "@ + items[i],
        ContentView::Search { results, .. } => dec_digits((i + 1) as nat) + ". "@ + results[i].1 + " ["@
            + dec_digits(results[i].0 as nat) + "]"@,
    }
}

/// `lines` draws the title at (10, 10) and message line `i` at (10, 40 + i * row).
pub open spec fn is_layout(c: ContentView, row: i32, lines: Seq<TextLine>) -> bool {
    &&& lines.len() == 1 + item_count(c)
    &&& lines[0].x == 10 && lines[0].y == 10 && lines[0].text@ == title_text(c)
    &&& forall|i: int|
        0 <= i < item_count(c) ==> {
            let l = #[trigger] lines[i + 1];
            l.x == 10 && l.y == 40 + i * row && l.text@ == item_text(c, i)
        }
}

/// `a` followed by the decimal notation of `n`.
fn text_then_number(a: &str, n: u64) -> (r: String)
    ensures
        r@ == a@ + dec_digits(n as nat),
{
    let mut s = String::from_str(a);
    let d = decimal(n);
    push_str(&mut s, d.as_str());
    s
}

/// The decimal notation of `n` followed by `b`.
fn number_then_text(n: u64, b: &str) -> (r: String)
    ensures
        r@ == dec_digits(n as nat) + b@,
{
    let mut s = decimal(n);
    push_str(&mut s, b);
    s
}

impl OverlayContent {
    /// The lines of text the panel draws, with message rows `row` pixels apart.
    pub fn lines(&self, row: i32) -> (r: Vec<TextLine>)
        requires
            item_count(self@) > 0 ==> i32::MIN <= (item_count(self@) - 1) * row,
            item_count(self@) > 0 ==> 40 + (item_count(self@) - 1) * row <= i32::MAX,
        ensures
            is_layout(self@, row, r@),
    {
        let mut out: Vec<TextLine> = Vec::new();
        match self {
            OverlayContent::Home { items, active, name } => {
                let mut title = text_then_number("方案", *active as u64);
                push_str(&mut title, ": ");
                push_str(&mut title, name.as_str());
                out.push(TextLine { x: 10, y: 10, text: title });
                let n = if items.len() < 9 { items.len() } else { 9 };
                let mut i: usize = 0;
                while i < n
                    invariant
                        n == item_count(self@),
                        self@ == (ContentView::Home { items: items@.map_values(|s: String| s@), active: *active, name: name@ }),
                        n <= items@.len(),
                        i <= n,
                        n > 0 ==> i32::MIN <= (n - 1) * row,
                        n > 0 ==> 40 + (n - 1) * row <= i32::MAX,
                        out@.len() == 1 + i,
                        out@[0].x == 10 && out@[0].y == 10 && out@[0].text@ == title_text(self@),
                        forall|j: int| 0 <= j < i ==> {
                            let l = #[trigger] out@[j + 1];
                            l.x == 10 && l.y == 40 + j * row && l.text@ == item_text(self@, j)
                        },
                    decreases n - i,
                {
                    assert(i32::MIN <= i * row && 40 + i * row <= i32::MAX) by (nonlinear_arith)
                        requires
                            i < n,
                            i32::MIN <= (n - 1) * row,
                            40 + (n - 1) * row <= i32::MAX,
                    ;
                    let mut t = number_then_text((i + 1) as u64, ". ");
                    push_str(&mut t, items[i].as_str());
                    assert(t@ == item_text(self@, i as int));
                    out.push(TextLine { x: 10, y: 40 + (i as i32) * row, text: t });
                    i = i + 1;
                }
            },
            OverlayContent::Secondary { index, items } => {
                let title = text_then_number("二级面板 ", *index as u64);
                out.push(TextLine { x: 10, y: 10, text: title });
                let mut i: usize = 0;
                while i < 10
                    invariant
                        item_count(self@) == 10,
                        self@ == (ContentView::Secondary { index: *index, items: items@.map_values(|s: String| s@) }),
                        items@.len() == 10,
                        i <= 10,
                        i32::MIN <= 9 * row,
                        40 + 9 * row <= i32::MAX,
                        out@.len() == 1 + i,
                        out@[0].x == 10 && out@[0].y == 10 && out@[0].text@ == title_text(self@),
                        forall|j: int| 0 <= j < i ==> {
                            let l = #[trigger] out@[j + 1];
                            l.x == 10 && l.y == 40 + j * row && l.text@ == item_text(self@, j)
                        },
                    decreases 10 - i,
                {
                    assert(i32::MIN <= i * row && 40 + i * row <= i32::MAX) by (nonlinear_arith)
                        requires
                            i < 10,
                            i32::MIN <= 9 * row,
                            40 + 9 * row <= i32::MAX,
                    ;
                    let mut t = number_then_text(i as u64, ". ");
                    push_str(&mut t, items[i].as_str());
                    assert(t@ == item_text(self@, i as int));
                    out.push(TextLine { x: 10, y: 40 + (i as i32) * row, text: t });
                    i = i + 1;
                }
            },
            OverlayContent::Search { query, results } => {
                let mut title = String::from_str("搜索: ");
                push_str(&mut title, query.as_str());
                out.push(TextLine { x: 10, y: 10, text: title });
                let n = if results.len() < 9 { results.len() } else { 9 };
                let mut i: usize = 0;
                while i < n
                    invariant
                        n == item_count(self@),
                        self@ == (ContentView::Search { query: query@, results: results@.map_values(|e: (u8, String)| (e.0, e.1@)) }),
                        n <= results@.len(),
                        i <= n,
                        n > 0 ==> i32::MIN <= (n - 1) * row,
                        n > 0 ==> 40 + (n - 1) * row <= i32::MAX,
                        out@.len() == 1 + i,
                        out@[0].x == 10 && out@[0].y == 10 && out@[0].text@ == title_text(self@),
                        forall|j: int| 0 <= j < i ==> {
                            let l = #[trigger] out@[j + 1];
                            l.x == 10 && l.y == 40 + j * row && l.text@ == item_text(self@, j)
                        },
                    decreases n - i,
                {
                    assert(i32::MIN <= i * row && 40 + i * row <= i32::MAX) by (nonlinear_arith)
                        requires
                            i < n,
                            i32::MIN <= (n - 1) * row,
                            40 + (n - 1) * row <= i32::MAX,
                    ;
                    let mut t = number_then_text((i + 1) as u64, ". ");
                    push_str(&mut t, results[i].1.as_str());
                    let mut tail = text_then_number(" [", results[i].0 as u64);
                    push_str(&mut tail, "]");
                    let ghost head = t@;
                    push_str(&mut t, tail.as_str());
                    assert(t@ =~= head + " ["@ + dec_digits(results@[i as int].0 as nat) + "]"@);
                    assert(t@ == item_text(self@, i as int));
                    out.push(TextLine { x: 10, y: 40 + (i as i32) * row, text: t });
                    i = i + 1;
                }
            },
        }
        out
    }
}


/// Where the panel goes inside the game window (`left`, `top`, `right` are
/// the window's edges): 10 pixels from the left or right edge, 50 below the top.
pub fn panel_position(panel_left: bool, left: i32, top: i32, right: i32, panel_width: i32) -> (r: (i32, i32))
    requires
        panel_left ==> left + 10 <= i32::MAX,
        !panel_left ==> i32::MIN <= right - panel_width && i32::MIN <= right - panel_width - 10
            && right - panel_width <= i32::MAX,
        top + 50 <= i32::MAX,
    ensures
        r.0 == (if panel_left { left + 10 } else { right - panel_width - 10 }),
        r.1 == top + 50,
{
    let x = if panel_left {
        left + 10
    } else {
        right - panel_width - 10
    };
    (x, top + 50)
}

/// Outline radius: the outline size, at least 1.
pub open spec fn outline_radius(outline_size: u8) -> int {
    if outline_size < 1 { 1 } else { outline_size as int }
}

/// The `j`-th offset of the `(2n+1) x (2n+1)` square around the origin, row by row.
pub open spec fn square_offset(n: int, j: int) -> (i32, i32) {
    ((j / (2 * n + 1) - n) as i32, (j % (2 * n + 1) - n) as i32)
}

/// The offsets at which the outline copies of a text are drawn: every
/// `(dx, dy)` with `-n <= dx, dy <= n` except `(0, 0)`, `dx` major, in
/// increasing order, where `n` is the outline radius.
pub open spec fn is_outline(outline_size: u8, r: Seq<(i32, i32)>) -> bool {
    let n = outline_radius(outline_size);
    let w = 2 * n + 1;
    let center = n * w + n;
    &&& r.len() == w * w - 1
    &&& forall|k: int| 0 <= k < r.len() ==> #[trigger] r[k] == square_offset(n, if k < center { k } else { k + 1 })
}

/// The outline offsets for an outline of `outline_size` pixels.
pub fn outline_offsets(outline_size: u8) -> (r: Vec<(i32, i32)>)
    ensures
        is_outline(outline_size, r@),
{
    let n: i32 = if outline_size < 1 { 1 } else { outline_size as i32 };
    let ghost w = 2 * n + 1;
    let ghost center = n * w + n;
    let mut out: Vec<(i32, i32)> = Vec::new();
    let mut dx: i32 = -n;
    while dx <= n
        invariant
            1 <= n <= 255,
            w == 2 * n + 1,
            center == n * w + n,
            -n <= dx <= n + 1,
            out@.len() == (if (dx + n) * w <= center { (dx + n) * w } else { (dx + n) * w - 1 }),
            forall|k: int| 0 <= k < out@.len() ==> #[trigger] out@[k] == square_offset(n as int, if k < center { k } else { k + 1 }),
        decreases n + 1 - dx,
    {
        let mut dy: i32 = -n;
        while dy <= n
            invariant
                1 <= n <= 255,
                w == 2 * n + 1,
                center == n * w + n,
                -n <= dx <= n,
                -n <= dy <= n + 1,
                out@.len() == (if (dx + n) * w + (dy + n) <= center { (dx + n) * w + (dy + n) } else { (dx + n) * w + (dy + n) - 1 }),
                forall|k: int| 0 <= k < out@.len() ==> #[trigger] out@[k] == square_offset(n as int, if k < center { k } else { k + 1 }),
            decreases n + 1 - dy,
        {
            let ghost j = (dx + n) * w + (dy + n);
            proof {
                assert(0 <= (dx + n) * w) by (nonlinear_arith)
                    requires 0 <= dx + n, 0 <= w;
                vstd::arithmetic::div_mod::lemma_fundamental_div_mod_converse(j, w, dx + n, dy + n);
            }
            if dx != 0 || dy != 0 {
                proof {
                    assert(j - center == dx * w + dy) by (nonlinear_arith)
                        requires
                            j == (dx + n) * w + (dy + n),
                            center == n * w + n,
                    ;
                    if dx > 0 {
                        assert(dx * w >= w) by (nonlinear_arith)
                            requires dx >= 1, w >= 0;
                    } else if dx < 0 {
                        assert(dx * w <= -w) by (nonlinear_arith)
                            requires dx <= -1, w >= 0;
                    }
                    assert(j != center);
                }
                out.push((dx, dy));
            }
            dy = dy + 1;
        }
        proof {
            assert((dx + n) * w + (n + 1 + n) == (dx + 1 + n) * w) by (nonlinear_arith)
                requires w == 2 * n + 1;
        }
        dx = dx + 1;
    }
    proof {
        assert((n + 1 + n) * w == w * w) by (nonlinear_arith)
            requires w == 2 * n + 1;
        assert(center < w * w) by (nonlinear_arith)
            requires w == 2 * n + 1, center == n * w + n, n >= 1;
    }
    out
}

} // verus!
