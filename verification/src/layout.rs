//! Where the parts of the screen stand.

use ratatui::layout::{Constraint, Layout, Rect};
use ratatui::widgets::{Block, Borders};
use vstd::prelude::*;

verus! {

/// A rectangle of terminal cells.
#[derive(Debug, Clone, Copy, PartialEq, Eq, Structural)]
pub struct Area {
    pub x: u16,
    pub y: u16,
    pub width: u16,
    pub height: u16,
}

/// How large one part of a split area wants to be.
#[derive(Debug, Clone, Copy, PartialEq, Eq, Structural)]
pub enum SizeRule {
    /// So many cells.
    Length(u16),
    /// So many cells or more.
    Min(u16),
    /// So many parts of a whole of so many parts.
    Ratio(u32, u32),
}

/// The areas of the screen's sections, from top to bottom.
#[derive(Debug, Clone, Copy, PartialEq, Eq, Structural)]
pub struct ScreenAreas {
    pub header: Area,
    pub profile: Area,
    pub session: Area,
    pub weekly: Area,
    pub resets: Area,
    pub message: Area,
    pub footer: Area,
}

/// The areas of a gauge: its frame, and inside it the bar, the divider and the label.
#[derive(Debug, Clone, Copy, PartialEq, Eq, Structural)]
pub struct GaugeAreas {
    pub frame: Area,
    pub bar: Area,
    pub divider: Area,
    pub label: Area,
}

impl Area {
    /// The first column to the right of the area, as far as 16 bits go.
    pub open spec fn right(self) -> int {
        if self.x + self.width <= u16::MAX {
            self.x + self.width
        } else {
            u16::MAX as int
        }
    }

    /// The first row below the area, as far as 16 bits go.
    pub open spec fn bottom(self) -> int {
        if self.y + self.height <= u16::MAX {
            self.y + self.height
        } else {
            u16::MAX as int
        }
    }

    /// The rows of the area, as far as 16 bits go.
    pub open spec fn rows(self) -> int {
        self.bottom() - self.y
    }

    /// The columns of the area, as far as 16 bits go.
    pub open spec fn columns(self) -> int {
        self.right() - self.x
    }

    /// Whether the area lies in another one.
    pub open spec fn lies_in(self, outer: Area) -> bool {
        &&& outer.x <= self.x && self.right() <= outer.right()
        &&& outer.y <= self.y && self.bottom() <= outer.bottom()
    }

    /// What a border of one cell all around leaves of the area.
    pub open spec fn inside_border(self) -> Area {
        Area {
            x: if self.x + 1 <= self.right() {
                (self.x + 1) as u16
            } else {
                self.right() as u16
            },
            y: if self.y + 1 <= self.bottom() {
                (self.y + 1) as u16
            } else {
                self.bottom() as u16
            },
            width: if self.width >= 2 {
                (self.width - 2) as u16
            } else {
                0
            },
            height: if self.height >= 2 {
                (self.height - 2) as u16
            } else {
                0
            },
        }
    }
}

/// The heights of the screen's sections, from top to bottom.
pub open spec fn section_heights() -> Seq<SizeRule> {
    seq![
        SizeRule::Length(4),
        SizeRule::Length(4),
        SizeRule::Length(3),
        SizeRule::Length(3),
        SizeRule::Length(4),
        SizeRule::Min(0),
        SizeRule::Length(3),
    ]
}

/// The widths of a gauge's bar and of what stands to its right.
pub open spec fn gauge_widths() -> Seq<SizeRule> {
    seq![SizeRule::Ratio(3, 4), SizeRule::Ratio(1, 4)]
}

/// The widths of a gauge's divider and of its label.
pub open spec fn label_widths() -> Seq<SizeRule> {
    seq![SizeRule::Length(1), SizeRule::Min(0)]
}

/// Whether these rows are an answer of the layout solver: more than one may be.
pub uninterp spec fn is_row_split(rules: Seq<SizeRule>, area: Area, rows: Seq<Area>) -> bool;

/// Whether these columns are an answer of the layout solver: more than one may be.
pub uninterp spec fn is_column_split(rules: Seq<SizeRule>, area: Area, columns: Seq<Area>) -> bool;

/// The rows of areas: where each begins and how many it has.
pub open spec fn row_spans(areas: Seq<Area>) -> Seq<(int, int)> {
    areas.map_values(|a: Area| (a.y as int, a.height as int))
}

/// The columns of areas: where each begins and how many it has.
pub open spec fn column_spans(areas: Seq<Area>) -> Seq<(int, int)> {
    areas.map_values(|a: Area| (a.x as int, a.width as int))
}

/// Whether spans follow one another without a gap or an overlap.
pub open spec fn in_line(spans: Seq<(int, int)>, start: int) -> bool {
    &&& spans.len() > 0 ==> spans[0].0 == start
    &&& forall|i: int, j: int|
        0 <= i && i + 1 == j && j < spans.len() ==> (#[trigger] spans[j]).0 == (
        #[trigger] spans[i]).0 + spans[i].1
}

/// The cells that lengths and minimal sizes ask for.
pub open spec fn needed(rules: Seq<SizeRule>) -> int
    decreases rules.len(),
{
    if rules.len() == 0 {
        0
    } else {
        needed(rules.drop_last()) + match rules.last() {
            SizeRule::Length(cells) => cells as int,
            SizeRule::Min(cells) => cells as int,
            SizeRule::Ratio(_, _) => 0,
        }
    }
}

/// The parts that ratios ask for.
pub open spec fn shares(rules: Seq<SizeRule>) -> int
    decreases rules.len(),
{
    if rules.len() == 0 {
        0
    } else {
        shares(rules.drop_last()) + match rules.last() {
            SizeRule::Ratio(part, _) => part as int,
            _ => 0,
        }
    }
}

/// Whether a few rules ask for lengths and minimal sizes only. A minimal size has
/// 15 bits.
pub open spec fn ask_for_cells(rules: Seq<SizeRule>) -> bool {
    &&& rules.len() <= 16
    &&& forall|i: int|
        0 <= i < rules.len() ==> match #[trigger] rules[i] {
            SizeRule::Length(_) => true,
            SizeRule::Min(cells) => cells <= i16::MAX,
            SizeRule::Ratio(_, _) => false,
        }
}

/// Whether a few rules ask for lengths and minimal sizes only, and for no more
/// than there is.
pub open spec fn can_be_met(rules: Seq<SizeRule>, size: int) -> bool {
    ask_for_cells(rules) && needed(rules) <= size
}

/// Whether a few rules ask for lengths and minimal sizes only, and for more than
/// there is.
pub open spec fn asks_too_much(rules: Seq<SizeRule>, size: int) -> bool {
    ask_for_cells(rules) && needed(rules) > size
}

/// Whether spans meet rules of lengths and minimal sizes: each length is kept,
/// and what is left over goes to those that only have a minimum.
pub open spec fn meets(spans: Seq<(int, int)>, rules: Seq<SizeRule>, start: int, size: int) -> bool {
    &&& in_line(spans, start)
    &&& forall|i: int|
        0 <= i < rules.len() ==> match #[trigger] rules[i] {
            SizeRule::Length(cells) => spans[i].1 == cells,
            SizeRule::Min(cells) => spans[i].1 >= cells,
            SizeRule::Ratio(_, _) => true,
        }
    &&& (exists|i: int| 0 <= i < rules.len() && (#[trigger] rules[i]) is Min) ==> spans.last().0
        + spans.last().1 == start + size
}

/// Whether spans fall short of rules of lengths and minimal sizes: all there is
/// is used, and none has more than its rule asks for.
pub open spec fn falls_short(
    spans: Seq<(int, int)>,
    rules: Seq<SizeRule>,
    start: int,
    size: int,
) -> bool {
    &&& in_line(spans, start)
    &&& forall|i: int|
        0 <= i < rules.len() ==> match #[trigger] rules[i] {
            SizeRule::Length(cells) => spans[i].1 <= cells,
            SizeRule::Min(cells) => spans[i].1 <= cells,
            SizeRule::Ratio(_, _) => true,
        }
    &&& spans.last().0 + spans.last().1 == start + size
}

/// The number of parts that the first ratio counts in a whole.
pub open spec fn whole_of(rules: Seq<SizeRule>) -> int {
    match rules.first() {
        SizeRule::Ratio(_, whole) => whole as int,
        _ => 0,
    }
}

/// Whether a few rules share out a whole, in parts that are whole percentages.
pub open spec fn share_out(rules: Seq<SizeRule>) -> bool {
    &&& 0 < rules.len() <= 16
    &&& whole_of(rules) > 0 && 100int % whole_of(rules) == 0
    &&& forall|i: int|
        0 <= i < rules.len() ==> (#[trigger] rules[i] matches SizeRule::Ratio(_, w) && w == whole_of(
            rules,
        ))
    &&& shares(rules) == whole_of(rules)
}

/// Whether spans are shares of a whole: all of it is used, and no share is off by
/// more than a cell.
pub open spec fn are_shares(
    spans: Seq<(int, int)>,
    rules: Seq<SizeRule>,
    start: int,
    size: int,
) -> bool {
    &&& in_line(spans, start)
    &&& forall|i: int|
        0 <= i < rules.len() ==> (#[trigger] rules[i] matches SizeRule::Ratio(part, whole)
            && -whole <= whole * spans[i].1 - part * size <= whole)
    &&& spans.last().0 + spans.last().1 == start + size
}

/// Calls ratatui's `Layout::vertical`, then `split`. Claimed: there is one row
/// for each rule, as wide as the area and inside it; where a few rules ask for
/// lengths and minimal sizes for which there is room, the rows follow one
/// another, each length is kept, and the rest goes to the rows with a minimum;
/// and where there is no room for them, the rows follow one another through the
/// whole area, and none has more than its rule asks for. Which of them give way,
/// and how the solver weighs other rules, is left open.
#[verifier::external_body]
fn split_rows(rules: &Vec<SizeRule>, area: Area) -> (rows: Vec<Area>)
    ensures
        is_row_split(rules@, area, rows@),
        rows@.len() == rules@.len(),
        forall|i: int|
            0 <= i < rows@.len() ==> (#[trigger] rows@[i]).x == area.x && rows@[i].width
                == area.width && rows@[i].lies_in(area),
        can_be_met(rules@, area.rows()) ==> meets(
            row_spans(rows@),
            rules@,
            area.y as int,
            area.rows(),
        ),
        asks_too_much(rules@, area.rows()) ==> falls_short(
            row_spans(rows@),
            rules@,
            area.y as int,
            area.rows(),
        ),
{
    let rules = rules.iter().map(|rule| match *rule {
        SizeRule::Length(cells) => Constraint::Length(cells),
        SizeRule::Min(cells) => Constraint::Min(cells),
        SizeRule::Ratio(part, whole) => Constraint::Ratio(part, whole),
    });
    let Area { x, y, width, height } = area;
    let rows = Layout::vertical(rules).split(Rect { x, y, width, height });
    rows.iter().map(|r| Area { x: r.x, y: r.y, width: r.width, height: r.height }).collect()
}

/// Calls ratatui's `Layout::horizontal`, then `split`. Claimed: there is one
/// column for each rule, as high as the area and inside it; where a few rules
/// ask for lengths and minimal sizes for which there is room, the columns follow
/// one another, each length is kept, and the rest goes to the columns with a
/// minimum; where there is no room for them, the columns follow one another
/// through the whole area, and none has more than its rule asks for; and a few
/// ratios that make up a whole share the area out to within a cell. Which columns
/// give way, and how the solver weighs other rules, is left open.
#[verifier::external_body]
fn split_columns(rules: &Vec<SizeRule>, area: Area) -> (columns: Vec<Area>)
    ensures
        is_column_split(rules@, area, columns@),
        columns@.len() == rules@.len(),
        forall|i: int|
            0 <= i < columns@.len() ==> (#[trigger] columns@[i]).y == area.y && columns@[i].height
                == area.height && columns@[i].lies_in(area),
        can_be_met(rules@, area.columns()) ==> meets(
            column_spans(columns@),
            rules@,
            area.x as int,
            area.columns(),
        ),
        asks_too_much(rules@, area.columns()) ==> falls_short(
            column_spans(columns@),
            rules@,
            area.x as int,
            area.columns(),
        ),
        share_out(rules@) ==> are_shares(
            column_spans(columns@),
            rules@,
            area.x as int,
            area.columns(),
        ),
{
    let rules = rules.iter().map(|rule| match *rule {
        SizeRule::Length(cells) => Constraint::Length(cells),
        SizeRule::Min(cells) => Constraint::Min(cells),
        SizeRule::Ratio(part, whole) => Constraint::Ratio(part, whole),
    });
    let Area { x, y, width, height } = area;
    let columns = Layout::horizontal(rules).split(Rect { x, y, width, height });
    columns.iter().map(|c| Area { x: c.x, y: c.y, width: c.width, height: c.height }).collect()
}

/// Calls `Block::inner` of ratatui, on a block with a border on each side.
/// Claimed: the border takes one cell on each side, as far as there are cells.
#[verifier::external_body]
fn inner_area(area: Area) -> (inner: Area)
    ensures
        inner == area.inside_border(),
{
    let Area { x, y, width, height } = area;
    let block = Block::default().borders(Borders::ALL);
    let inner = block.inner(Rect { x, y, width, height });
    Area { x: inner.x, y: inner.y, width: inner.width, height: inner.height }
}

/// The sections that seven rows make.
pub fn sections(rows: &Vec<Area>) -> (areas: ScreenAreas)
    requires
        rows@.len() == 7,
    ensures
        areas == sections_of(rows@),
{
    ScreenAreas {
        header: rows[0],
        profile: rows[1],
        session: rows[2],
        weekly: rows[3],
        resets: rows[4],
        message: rows[5],
        footer: rows[6],
    }
}

/// The sections that seven rows make.
pub open spec fn sections_of(rows: Seq<Area>) -> ScreenAreas {
    ScreenAreas {
        header: rows[0],
        profile: rows[1],
        session: rows[2],
        weekly: rows[3],
        resets: rows[4],
        message: rows[5],
        footer: rows[6],
    }
}

/// Whether these are the sections of a screen: rows that the layout solver gave
/// for their heights.
pub open spec fn are_sections(areas: ScreenAreas, screen: Area) -> bool {
    exists|rows: Seq<Area>| #[trigger]
        is_row_split(section_heights(), screen, rows) && areas == sections_of(rows)
}

/// Whether all sections are as wide as the screen, and inside it.
pub open spec fn sections_lie_in(areas: ScreenAreas, screen: Area) -> bool {
    &&& is_full_row(areas.header, screen)
    &&& is_full_row(areas.profile, screen)
    &&& is_full_row(areas.session, screen)
    &&& is_full_row(areas.weekly, screen)
    &&& is_full_row(areas.resets, screen)
    &&& is_full_row(areas.message, screen)
    &&& is_full_row(areas.footer, screen)
}

/// Whether an area is as wide as another one, and inside it.
pub open spec fn is_full_row(row: Area, outer: Area) -> bool {
    row.x == outer.x && row.width == outer.width && row.lies_in(outer)
}

/// Whether the sections stand one below the other in their full heights, and the
/// message takes the rows that are left over.
pub open spec fn sections_are_stacked(areas: ScreenAreas, screen: Area) -> bool {
    &&& areas.header.y == screen.y && areas.header.height == 4
    &&& areas.profile.y == screen.y + 4 && areas.profile.height == 4
    &&& areas.session.y == screen.y + 8 && areas.session.height == 3
    &&& areas.weekly.y == screen.y + 11 && areas.weekly.height == 3
    &&& areas.resets.y == screen.y + 14 && areas.resets.height == 4
    &&& areas.message.y == screen.y + 18 && areas.message.height == screen.rows() - 21
    &&& areas.footer.y == screen.bottom() - 3 && areas.footer.height == 3
}

/// Whether no section is higher than it wants to be, and none of the rows is left
/// for the message.
pub open spec fn sections_are_cut(areas: ScreenAreas) -> bool {
    &&& areas.header.height <= 4
    &&& areas.profile.height <= 4
    &&& areas.session.height <= 3
    &&& areas.weekly.height <= 3
    &&& areas.resets.height <= 4
    &&& areas.message.height == 0
    &&& areas.footer.height <= 3
}

/// Whether the sections follow one another from the top of the screen to its
/// bottom, without a gap or an overlap.
pub open spec fn sections_fill(areas: ScreenAreas, screen: Area) -> bool {
    &&& areas.header.y == screen.y
    &&& areas.profile.y == areas.header.y + areas.header.height
    &&& areas.session.y == areas.profile.y + areas.profile.height
    &&& areas.weekly.y == areas.session.y + areas.session.height
    &&& areas.resets.y == areas.weekly.y + areas.weekly.height
    &&& areas.message.y == areas.resets.y + areas.resets.height
    &&& areas.footer.y == areas.message.y + areas.message.height
    &&& areas.footer.y + areas.footer.height == screen.bottom()
}

/// Whether a screen is high enough for all sections.
pub open spec fn has_room_for_sections(screen: Area) -> bool {
    screen.rows() >= 21
}

/// The areas of the screen's sections.
pub fn screen_areas(screen: Area) -> (areas: ScreenAreas)
    ensures
        are_sections(areas, screen),
        sections_lie_in(areas, screen),
        sections_fill(areas, screen),
        has_room_for_sections(screen) ==> sections_are_stacked(areas, screen),
        !has_room_for_sections(screen) ==> sections_are_cut(areas),
{
    let mut heights: Vec<SizeRule> = Vec::new();
    heights.push(SizeRule::Length(4));
    heights.push(SizeRule::Length(4));
    heights.push(SizeRule::Length(3));
    heights.push(SizeRule::Length(3));
    heights.push(SizeRule::Length(4));
    heights.push(SizeRule::Min(0));
    heights.push(SizeRule::Length(3));
    assert(heights@ =~= section_heights());
    let rows = split_rows(&heights, screen);
    proof {
        let rules = section_heights();
        let spans = row_spans(rows@);
        lemma_needed_by_sections();
        assert(rules[5] is Min);
        assert(rules[0] is Length && rules[1] is Length && rules[2] is Length);
        assert(rules[3] is Length && rules[4] is Length && rules[6] is Length);
        assert(in_line(spans, screen.y as int));
        assert(spans[1].0 == spans[0].0 + spans[0].1);
        assert(spans[2].0 == spans[1].0 + spans[1].1);
        assert(spans[3].0 == spans[2].0 + spans[2].1);
        assert(spans[4].0 == spans[3].0 + spans[3].1);
        assert(spans[5].0 == spans[4].0 + spans[4].1);
        assert(spans[6].0 == spans[5].0 + spans[5].1);
    }
    sections(&rows)
}

proof fn lemma_needed_by_sections()
    ensures
        needed(section_heights()) == 21,
{
    reveal_with_fuel(needed, 8);
    let rules = section_heights();
    assert(rules.drop_last() =~= seq![
        SizeRule::Length(4),
        SizeRule::Length(4),
        SizeRule::Length(3),
        SizeRule::Length(3),
        SizeRule::Length(4),
        SizeRule::Min(0),
    ]);
    assert(rules.drop_last().drop_last() =~= seq![
        SizeRule::Length(4),
        SizeRule::Length(4),
        SizeRule::Length(3),
        SizeRule::Length(3),
        SizeRule::Length(4),
    ]);
}

proof fn lemma_gauge_shares()
    ensures
        shares(gauge_widths()) == 4,
        needed(label_widths()) == 1,
{
    reveal_with_fuel(shares, 3);
    reveal_with_fuel(needed, 3);
    assert(gauge_widths().drop_last() =~= seq![SizeRule::Ratio(3, 4)]);
    assert(gauge_widths().drop_last().drop_last() =~= Seq::<SizeRule>::empty());
    assert(label_widths().drop_last() =~= seq![SizeRule::Length(1)]);
    assert(label_widths().drop_last().drop_last() =~= Seq::<SizeRule>::empty());
}

/// Whether these are the areas of a gauge in a frame: columns that the layout
/// solver gave for the inside of the frame, and for the right one of them.
pub open spec fn are_gauge_areas(areas: GaugeAreas, frame: Area) -> bool {
    exists|halves: Seq<Area>, label: Seq<Area>| #[trigger]
        is_column_split(gauge_widths(), frame.inside_border(), halves) && #[trigger]
        is_column_split(label_widths(), halves[1], label) && areas == (GaugeAreas {
            frame,
            bar: halves[0],
            divider: label[0],
            label: label[1],
        })
}

/// Whether an area is as high as another one, and inside it.
pub open spec fn is_full_column(column: Area, outer: Area) -> bool {
    column.y == outer.y && column.height == outer.height && column.lies_in(outer)
}

/// Whether the bar, the divider and the label stand side by side and fill the
/// inside of the frame: the bar takes three quarters to within a cell, and the
/// divider one column, as soon as there is one to the right of the bar. Where
/// there is none, neither the divider nor the label has a column.
pub open spec fn gauge_is_filled(areas: GaugeAreas, inner: Area) -> bool {
    &&& areas.bar.x == inner.x
    &&& -4 <= 4 * areas.bar.width - 3 * inner.columns() <= 4
    &&& areas.divider.x == areas.bar.x + areas.bar.width
    &&& areas.divider.width == (if areas.bar.width < inner.columns() {
        1int
    } else {
        0int
    })
    &&& areas.label.x == areas.divider.x + areas.divider.width
    &&& areas.label.x + areas.label.width == inner.right()
}

/// The areas of a gauge in a frame.
pub fn gauge_areas(frame: Area) -> (areas: GaugeAreas)
    ensures
        are_gauge_areas(areas, frame),
        is_full_column(areas.bar, frame.inside_border()),
        is_full_column(areas.divider, frame.inside_border()),
        is_full_column(areas.label, frame.inside_border()),
        gauge_is_filled(areas, frame.inside_border()),
{
    let inner = inner_area(frame);
    let mut widths: Vec<SizeRule> = Vec::new();
    widths.push(SizeRule::Ratio(3, 4));
    widths.push(SizeRule::Ratio(1, 4));
    assert(widths@ =~= gauge_widths());
    let halves = split_columns(&widths, inner);
    let mut widths: Vec<SizeRule> = Vec::new();
    widths.push(SizeRule::Length(1));
    widths.push(SizeRule::Min(0));
    assert(widths@ =~= label_widths());
    let label = split_columns(&widths, halves[1]);
    assert(is_column_split(gauge_widths(), frame.inside_border(), halves@));
    assert(is_column_split(label_widths(), halves@[1], label@));
    proof {
        lemma_gauge_shares();
        let rules = gauge_widths();
        let spans = column_spans(halves@);
        assert(share_out(rules));
        assert(rules[0] is Ratio && rules[1] is Ratio);
        assert(spans[1].0 == spans[0].0 + spans[0].1);
        assert(-4 <= 4 * spans[0].1 - 3 * inner.columns() <= 4);
        assert(spans.last() == spans[1]);
        let rules = label_widths();
        let spans = column_spans(label@);
        assert(rules[0] is Length && rules[1] is Min);
        assert(in_line(spans, halves@[1].x as int));
        assert(spans[1].0 == spans[0].0 + spans[0].1);
        assert(spans.last() == spans[1]);
    }
    GaugeAreas { frame, bar: halves[0], divider: label[0], label: label[1] }
}

/// Each section ends where the next one begins, and the last one ends with the
/// screen, however high it is.
pub proof fn law_sections_do_not_overlap(areas: ScreenAreas, screen: Area)
    requires
        sections_fill(areas, screen),
    ensures
        areas.header.y == screen.y,
        areas.profile.y == areas.header.bottom(),
        areas.session.y == areas.profile.bottom(),
        areas.weekly.y == areas.session.bottom(),
        areas.resets.y == areas.weekly.bottom(),
        areas.message.y == areas.resets.bottom(),
        areas.footer.y == areas.message.bottom(),
        areas.footer.bottom() == screen.bottom(),
{
}

/// The bar ends where the divider begins, the divider where the label begins, and
/// the label with the inside of the frame, however wide it is. Where the bar takes
/// all columns, none is left for the two others.
pub proof fn law_gauge_parts_do_not_overlap(areas: GaugeAreas, inner: Area)
    requires
        gauge_is_filled(areas, inner),
    ensures
        areas.bar.right() == areas.divider.x,
        areas.divider.right() == areas.label.x,
        areas.label.right() == inner.right(),
        areas.bar.width >= inner.columns() ==> areas.divider.columns() == 0
            && areas.label.columns() == 0,
{
}

/// What a border leaves of an area lies in the area.
pub proof fn law_inside_border_lies_in(area: Area)
    ensures
        area.inside_border().lies_in(area),
{
}

/// The edges of an area, and how many rows and columns it has, as far as 16 bits go.
pub proof fn law_edges_in_numbers(area: Area)
    ensures
        area.x + area.width <= 65_535 ==> area.right() == area.x + area.width && area.columns()
            == area.width,
        area.x + area.width > 65_535 ==> area.right() == 65_535 && area.columns() == 65_535
            - area.x,
        area.y + area.height <= 65_535 ==> area.bottom() == area.y + area.height && area.rows()
            == area.height,
        area.y + area.height > 65_535 ==> area.bottom() == 65_535 && area.rows() == 65_535 - area.y,
{
}

/// An area lies in another one just where none of its edges is outside.
pub proof fn law_lying_in_goes_by_edges(inner: Area, outer: Area)
    ensures
        inner.lies_in(outer) <==> outer.x <= inner.x && inner.right() <= outer.right() && outer.y
            <= inner.y && inner.bottom() <= outer.bottom(),
{
}

/// A border takes a cell from each side.
pub proof fn law_border_takes_a_cell_on_each_side(area: Area)
    requires
        area.x + area.width <= 65_535,
        area.y + area.height <= 65_535,
    ensures
        area.width >= 2 ==> area.inside_border().x == area.x + 1 && area.inside_border().width
            == area.width - 2,
        area.height >= 2 ==> area.inside_border().y == area.y + 1 && area.inside_border().height
            == area.height - 2,
        area.width < 2 ==> area.inside_border().width == 0,
        area.height < 2 ==> area.inside_border().height == 0,
{
}

/// Seven rows become the sections in their order.
pub proof fn law_sections_are_taken_in_order(rows: &Vec<Area>, areas: ScreenAreas)
    requires
        rows@.len() == 7,
        call_ensures(sections, (rows,), areas),
    ensures
        areas.header == rows@[0],
        areas.profile == rows@[1],
        areas.session == rows@[2],
        areas.weekly == rows@[3],
        areas.resets == rows@[4],
        areas.message == rows@[5],
        areas.footer == rows@[6],
{
}

/// The sections are as wide as the screen and follow one another from its top to
/// its bottom: the header and the profile in four rows each, the two gauges in three
/// each, the resets in four, the message in what is left, and the footer in three.
/// Where there are fewer than 21 rows, the message has none and no section has more.
pub proof fn law_sections_have_their_rows(screen: Area, areas: ScreenAreas)
    requires
        call_ensures(screen_areas, (screen,), areas),
    ensures
        areas.header.x == screen.x && areas.header.width == screen.width,
        areas.profile.x == screen.x && areas.profile.width == screen.width,
        areas.session.x == screen.x && areas.session.width == screen.width,
        areas.weekly.x == screen.x && areas.weekly.width == screen.width,
        areas.resets.x == screen.x && areas.resets.width == screen.width,
        areas.message.x == screen.x && areas.message.width == screen.width,
        areas.footer.x == screen.x && areas.footer.width == screen.width,
        areas.header.y == screen.y,
        areas.profile.y == areas.header.y + areas.header.height,
        areas.session.y == areas.profile.y + areas.profile.height,
        areas.weekly.y == areas.session.y + areas.session.height,
        areas.resets.y == areas.weekly.y + areas.weekly.height,
        areas.message.y == areas.resets.y + areas.resets.height,
        areas.footer.y == areas.message.y + areas.message.height,
        screen.y + screen.height <= 65_535 ==> areas.footer.y + areas.footer.height == screen.y
            + screen.height,
        screen.y + screen.height > 65_535 ==> areas.footer.y + areas.footer.height == 65_535,
        screen.height >= 21 && screen.y <= 65_514 ==> {
            &&& areas.header.height == 4
            &&& areas.profile.height == 4
            &&& areas.session.height == 3
            &&& areas.weekly.height == 3
            &&& areas.resets.height == 4
            &&& areas.footer.height == 3
        },
        screen.height < 21 || screen.y > 65_514 ==> {
            &&& areas.header.height <= 4
            &&& areas.profile.height <= 4
            &&& areas.session.height <= 3
            &&& areas.weekly.height <= 3
            &&& areas.resets.height <= 4
            &&& areas.message.height == 0
            &&& areas.footer.height <= 3
        },
{
}

/// Inside its frame a gauge has the bar on the left, in three quarters of the
/// columns to within one, then the divider in one column as soon as one is left,
/// then the label up to the right. All three have all rows of the inside.
pub proof fn law_gauge_is_laid_out(frame: Area, areas: GaugeAreas)
    requires
        frame.width >= 2,
        frame.height >= 2,
        frame.x + frame.width <= 65_535,
        frame.y + frame.height <= 65_535,
        call_ensures(gauge_areas, (frame,), areas),
    ensures
        areas.frame == frame,
        areas.bar.x == frame.x + 1,
        3 * (frame.width - 2) - 4 <= 4 * areas.bar.width <= 3 * (frame.width - 2) + 4,
        areas.bar.width <= frame.width - 2,
        areas.divider.x == areas.bar.x + areas.bar.width,
        areas.bar.width < frame.width - 2 ==> areas.divider.width == 1,
        areas.bar.width == frame.width - 2 ==> areas.divider.width == 0,
        areas.label.x == areas.divider.x + areas.divider.width,
        areas.label.x + areas.label.width == frame.x + frame.width - 1,
        areas.bar.y == frame.y + 1 && areas.bar.height == frame.height - 2,
        areas.divider.y == frame.y + 1 && areas.divider.height == frame.height - 2,
        areas.label.y == frame.y + 1 && areas.label.height == frame.height - 2,
{
}

/// A gauge in any frame keeps inside it, and its parts follow one another.
pub proof fn law_gauge_keeps_in_its_frame(frame: Area, areas: GaugeAreas)
    requires
        call_ensures(gauge_areas, (frame,), areas),
    ensures
        areas.frame == frame,
        areas.bar.lies_in(frame) && areas.divider.lies_in(frame) && areas.label.lies_in(frame),
        areas.bar.x + areas.bar.width == areas.divider.x,
        areas.divider.x + areas.divider.width == areas.label.x,
        frame.width < 2 ==> areas.bar.width == 0 && areas.divider.width == 0 && areas.label.width
            == 0,
{
    law_inside_border_lies_in(frame);
}

/// What it is for the parts of a gauge to fill the inside of its frame.
pub proof fn law_filled_gauge_in_numbers(areas: GaugeAreas, inner: Area)
    requires
        gauge_is_filled(areas, inner),
    ensures
        areas.bar.x == inner.x,
        3 * inner.columns() - 4 <= 4 * areas.bar.width <= 3 * inner.columns() + 4,
        areas.divider.x == areas.bar.x + areas.bar.width,
        areas.bar.width < inner.columns() <==> areas.divider.width == 1,
        areas.bar.width >= inner.columns() <==> areas.divider.width == 0,
        areas.label.x == areas.divider.x + areas.divider.width,
        areas.label.x + areas.label.width == inner.right(),
{
}

} // verus!
