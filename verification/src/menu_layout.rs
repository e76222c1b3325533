//! Where the completion menu and the description of its selected item are
//! drawn, and the texts of the menu's rows and footer.
use crate::completion::{CompletionItem, CompletionItemKind, kind_name};
use crate::text::{decimal, from_chars, matches_at, occurs_at, push_decimal, to_chars};
use vstd::prelude::*;

verus! {

/// The menu is at most this many columns wide.
pub const MAX_MENU_WIDTH: u16 = 50;
/// The menu is at most this many rows high, its footer included.
pub const MAX_MENU_HEIGHT: u16 = 11;
/// The description needs at least this many columns.
pub const MIN_DESC_WIDTH: u16 = 35;
/// The description is at most this many columns wide.
pub const MAX_DESC_WIDTH: u16 = 50;
/// The description is at most this many rows high.
pub const MAX_DESC_HEIGHT: u16 = 25;

/// A rectangle of the terminal.
#[derive(Clone, Copy, PartialEq, Eq, Debug, Structural)]
pub struct Area {
    pub x: u16,
    pub y: u16,
    pub width: u16,
    pub height: u16,
}

/// `a - b`, or 0 where `b` is larger.
pub open spec fn sat_sub(a: int, b: int) -> int {
    if a >= b {
        a - b
    } else {
        0
    }
}

/// Whether the menu can be placed: the input's position plus the cursor,
/// and the menu's right edge and height, stay within 16 bits.
pub open spec fn menu_fits(input: Area, cursor_x: u16, cursor_y: u16, count: u16) -> bool {
    &&& input.x + cursor_x + 1 + MAX_MENU_WIDTH <= u16::MAX
    &&& input.y + cursor_y + 1 + MAX_MENU_HEIGHT <= u16::MAX
    &&& count < u16::MAX
}

/// Where the menu goes for `count` items: just below and right of the
/// cursor, as high as the items and its footer (at most eleven rows); moved
/// left where it would pass the frame's right edge, and above the cursor
/// where it would pass the bottom.  Nothing where the frame (`height`,
/// `width`) is too small for a menu.
pub open spec fn spec_menu_area(
    input: Area,
    cursor_x: u16,
    cursor_y: u16,
    count: u16,
    frame_height: u16,
    frame_width: u16,
) -> Option<Area> {
    if frame_width <= MAX_MENU_WIDTH || frame_height <= MAX_MENU_HEIGHT + 1 {
        None
    } else {
        let x0 = input.x + cursor_x + 1;
        let y0 = input.y + cursor_y + 1;
        let h = if count + 1 < MAX_MENU_HEIGHT { count + 1 } else { MAX_MENU_HEIGHT as int };
        let x = if x0 + MAX_MENU_WIDTH > frame_width {
            sat_sub(x0, x0 + MAX_MENU_WIDTH - frame_width)
        } else {
            x0
        };
        let y = if y0 + h > frame_height { sat_sub(sat_sub(y0, h), 1) } else { y0 };
        Some(Area { x: x as u16, y: y as u16, width: MAX_MENU_WIDTH, height: h as u16 })
    }
}

/// Where the completion menu goes.
pub fn menu_area(
    input: Area,
    cursor_x: u16,
    cursor_y: u16,
    count: u16,
    frame_height: u16,
    frame_width: u16,
) -> (r: Option<Area>)
    requires
        menu_fits(input, cursor_x, cursor_y, count),
    ensures
        r == spec_menu_area(input, cursor_x, cursor_y, count, frame_height, frame_width),
{
    if frame_width <= MAX_MENU_WIDTH || frame_height <= MAX_MENU_HEIGHT + 1 {
        return None;
    }
    let mut x = input.x + cursor_x + 1;
    let mut y = input.y + cursor_y + 1;
    let height = if count + 1 < MAX_MENU_HEIGHT { count + 1 } else { MAX_MENU_HEIGHT };
    if x + MAX_MENU_WIDTH > frame_width {
        let x_offset = x + MAX_MENU_WIDTH - frame_width;
        x = x.saturating_sub(x_offset);
    }
    if y + height > frame_height {
        y = y.saturating_sub(height).saturating_sub(1);
    }
    Some(Area { x, y, width: MAX_MENU_WIDTH, height })
}

/// Where the description of the selected item goes beside the menu: to
/// its right where there is room, else to its left; below the menu's top
/// where the description fits under it, else ending at the menu's bottom;
/// as high as its rows (at most 25).  Nothing where neither side nor
/// neither direction has room.
pub open spec fn spec_desc_area(menu: Area, line_count: usize, frame_height: u16, frame_width: u16) -> Option<
    Area,
> {
    let rows = (line_count as nat % 65536) as int;
    let desc_height = if rows < MAX_DESC_HEIGHT { rows } else { MAX_DESC_HEIGHT as int };
    let right = sat_sub(frame_width as int, if menu.width + menu.x > u16::MAX { u16::MAX as int } else {
        menu.width + menu.x
    });
    if right < MIN_DESC_WIDTH && menu.x < MIN_DESC_WIDTH {
        None
    } else if sat_sub(frame_height as int, menu.y as int) < MAX_DESC_HEIGHT && sat_sub(menu.y as int, 2)
        < MAX_DESC_HEIGHT {
        None
    } else {
        let is_right = right >= MIN_DESC_WIDTH;
        let width = if is_right {
            if right < MAX_DESC_WIDTH { right } else { MAX_DESC_WIDTH as int }
        } else {
            if menu.x < MAX_DESC_WIDTH { menu.x as int } else { MAX_DESC_WIDTH as int }
        };
        let is_bottom = sat_sub(frame_height as int, menu.y as int) >= MAX_DESC_HEIGHT;
        let x = if is_right {
            if menu.x + menu.width > u16::MAX { u16::MAX as int } else { menu.x + menu.width }
        } else {
            sat_sub(menu.x as int, width)
        };
        let y = if is_bottom {
            menu.y as int
        } else {
            sat_sub(
                if menu.y + menu.height > u16::MAX { u16::MAX as int } else { menu.y + menu.height },
                desc_height,
            )
        };
        Some(Area { x: x as u16, y: y as u16, width: width as u16, height: desc_height as u16 })
    }
}

/// Where the description of the selected item goes; `line_count` is the
/// number of rows its text takes when wrapped to the least width.
pub fn desc_area(menu: Area, line_count: usize, frame_height: u16, frame_width: u16) -> (r: Option<Area>)
    ensures
        r == spec_desc_area(menu, line_count, frame_height, frame_width),
{
    let n = line_count;
    let rows = #[verifier::truncate] (n as u16);
    assert(rows == n as nat % 65536) by (bit_vector)
        requires
            rows == #[verifier::truncate] (n as u16),
    ;
    let desc_height = if rows < MAX_DESC_HEIGHT { rows } else { MAX_DESC_HEIGHT };
    let right = frame_width.saturating_sub(menu.width.saturating_add(menu.x));
    let is_right;
    let width;
    if right < MIN_DESC_WIDTH {
        if menu.x < MIN_DESC_WIDTH {
            return None;
        }
        is_right = false;
        width = if menu.x < MAX_DESC_WIDTH { menu.x } else { MAX_DESC_WIDTH };
    } else {
        is_right = true;
        width = if right < MAX_DESC_WIDTH { right } else { MAX_DESC_WIDTH };
    }
    let mut is_bottom = true;
    if frame_height.saturating_sub(menu.y) < MAX_DESC_HEIGHT {
        if menu.y.saturating_sub(2) < MAX_DESC_HEIGHT {
            return None;
        }
        is_bottom = false;
    }
    let x = if is_right { menu.x.saturating_add(menu.width) } else { menu.x.saturating_sub(width) };
    let y = if is_bottom {
        menu.y
    } else {
        menu.y.saturating_add(menu.height).saturating_sub(desc_height)
    };
    Some(Area { x, y, width, height: desc_height })
}

/// The menu footer's counter: the selected item's number (counting from
/// one) and the number of items, as `3:12`.
pub open spec fn spec_menu_counter(selected: usize, count: usize) -> Seq<char> {
    let n: nat = if selected + 1 > usize::MAX { usize::MAX as nat } else { (selected + 1) as nat };
    decimal(n) + seq![':'] + decimal(count as nat)
}

/// The menu footer's counter.
pub fn menu_counter(selected: usize, count: usize) -> (r: String)
    ensures
        r@ == spec_menu_counter(selected, count),
{
    let mut v: Vec<char> = Vec::new();
    push_decimal(&mut v, selected.saturating_add(1) as u128);
    v.push(':');
    push_decimal(&mut v, count as u128);
    from_chars(&v)
}

/// The first position where `sub` occurs in `s`.
pub open spec fn first_occurrence(s: Seq<char>, sub: Seq<char>, i: int) -> Option<int>
    decreases s.len() + 1 - i,
{
    if i < 0 || i > s.len() {
        None
    } else if occurs_at(s, sub, i) {
        Some(i)
    } else {
        first_occurrence(s, sub, i + 1)
    }
}

/// A row of the completion menu: the label split around the first place
/// the typed segment occurs in it (nothing of the label where it does not
/// occur), the item's detail, and its kind's name.
#[derive(Debug, PartialEq, Eq)]
pub struct MenuRow {
    /// The label before, at and after the segment.
    pub label: Option<(String, String, String)>,
    pub detail: Option<String>,
    pub kind: String,
}

/// The row of the menu that shows an item, for the typed segment.
pub open spec fn menu_row_view(
    label: Seq<char>,
    detail: Option<Seq<char>>,
    kind: CompletionItemKind,
    segment: Seq<char>,
) -> (Option<(Seq<char>, Seq<char>, Seq<char>)>, Option<Seq<char>>, Seq<char>) {
    (
        match first_occurrence(label, segment, 0) {
            Some(p) => Some(
                (label.take(p), segment, label.skip(p + segment.len())),
            ),
            None => None,
        },
        detail,
        kind_name(kind),
    )
}

fn find_first(l: &Vec<char>, s: &Vec<char>) -> (r: Option<usize>)
    ensures
        match r {
            Some(p) => first_occurrence(l@, s@, 0) == Some(p as int) && p + s@.len() <= l@.len(),
            None => first_occurrence(l@, s@, 0) is None,
        },
{
    let mut i: usize = 0;
    loop
        invariant
            i <= l@.len(),
            first_occurrence(l@, s@, 0) == first_occurrence(l@, s@, i as int),
        decreases l@.len() - i,
    {
        if matches_at(l, s, i) {
            return Some(i);
        }
        if i == l.len() {
            proof {
                assert(first_occurrence(l@, s@, i + 1) is None);
            }
            return None;
        }
        i = i + 1;
    }
}

/// The row of the menu that shows an item.
pub fn menu_row(item: &CompletionItem, segment: &str) -> (r: MenuRow)
    ensures
        (
            match r.label {
                Some((a, b, c)) => Some((a@, b@, c@)),
                None => None,
            },
            match r.detail {
                Some(d) => Some(d@),
                None => None,
            },
            r.kind@,
        ) == menu_row_view(
            item.label.label@,
            match item.label.detail {
                Some(d) => Some(d@),
                None => None,
            },
            item.kind,
            segment@,
        ),
{
    let l = to_chars(item.label.label.as_str());
    let s = to_chars(segment);
    let found = find_first(&l, &s);
    let label = match found {
        Some(p) => {
            let mut before: Vec<char> = Vec::new();
            let mut k: usize = 0;
            while k < p
                invariant
                    k <= p,
                    p + s@.len() <= l@.len(),
                    before@ == l@.take(k as int),
                decreases p - k,
            {
                before.push(l[k]);
                proof {
                    assert(l@.take(k + 1) =~= l@.take(k as int).push(l@[k as int]));
                }
                k = k + 1;
            }
            let mut after: Vec<char> = Vec::new();
            proof {
                assert(l@.len() == l.len());
            }
            let mut j: usize = p + s.len();
            while j < l.len()
                invariant
                    p + s@.len() <= j <= l@.len(),
                    after@ == l@.subrange(p + s@.len(), j as int),
                decreases l@.len() - j,
            {
                after.push(l[j]);
                proof {
                    assert(l@.subrange(p + s@.len(), j + 1) =~= l@.subrange(p + s@.len(), j as int).push(
                        l@[j as int],
                    ));
                }
                j = j + 1;
            }
            proof {
                assert(l@.subrange(p + s@.len(), l@.len() as int) =~= l@.skip(p + s@.len()));
            }
            Some((from_chars(&before), segment.to_string(), from_chars(&after)))
        },
        None => None,
    };
    let detail = match &item.label.detail {
        Some(d) => Some(d.clone()),
        None => None,
    };
    MenuRow { label, detail, kind: item.kind.name() }
}


/// The menu never passes the frame's right edge, and is between one and
/// eleven rows high.
pub proof fn lemma_menu_within_frame(
    input: Area,
    cursor_x: u16,
    cursor_y: u16,
    count: u16,
    frame_height: u16,
    frame_width: u16,
)
    requires
        menu_fits(input, cursor_x, cursor_y, count),
    ensures
        spec_menu_area(input, cursor_x, cursor_y, count, frame_height, frame_width) matches Some(a) ==> a.x
            + a.width <= frame_width && 1 <= a.height <= MAX_MENU_HEIGHT,
{
}

/// The description sits beside the menu without covering it: right after
/// its right edge, within the frame, or ending before its left edge; and it
/// is at most 50 columns wide and 25 rows high.
pub proof fn lemma_desc_beside_menu(menu: Area, line_count: usize, frame_height: u16, frame_width: u16)
    requires
        menu.x + menu.width <= u16::MAX,
    ensures
        spec_desc_area(menu, line_count, frame_height, frame_width) matches Some(d) ==> {
            &&& (d.x == menu.x + menu.width && d.x + d.width <= frame_width) || d.x + d.width <= menu.x
            &&& d.width <= MAX_DESC_WIDTH
            &&& d.height <= MAX_DESC_HEIGHT
        },
{
}

} // verus!
