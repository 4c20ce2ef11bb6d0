//! The arithmetic of the screen: how many rows and columns things take, and
//! where they go.

use vstd::prelude::*;

verus! {

/// The fewest rows that a message takes.
pub const MIN_MESSAGE_HEIGHT: u16 = 3;

/// The most notifications shown at a time.
pub const MAX_NOTIFICATIONS: usize = 5;

/// The rows of a notification.
pub const NOTIFICATION_HEIGHT: u16 = 3;

/// A rectangle of the screen, in cells.
#[derive(Debug, Clone, Copy, PartialEq, Eq, Structural)]
pub struct Area {
    pub x: u16,
    pub y: u16,
    pub width: u16,
    pub height: u16,
}

/// The rows of the input box: one for each line written, at least one and
/// at most `max_lines`, and two for the border.
pub open spec fn input_rows(lines: nat, max_lines: nat) -> nat {
    let shown = if lines < 1 {
        1
    } else {
        lines
    };
    let capped = if shown > max_lines {
        max_lines
    } else {
        shown
    };
    if capped + 2 > 65_535 {
        65_535
    } else {
        capped + 2
    }
}

/// The rows that the text of a message takes: one for its header, one for
/// each line of content and one below the content where there is any, and
/// one for each attachment and one below the attachments where there are
/// any.
pub open spec fn text_rows(content_lines: nat, attachments: nat) -> nat {
    let content = if content_lines > 0 {
        content_lines + 1
    } else {
        0
    };
    let attached = if attachments > 0 {
        attachments + 1
    } else {
        0
    };
    1 + content + attached
}

/// The rows that a message takes on a screen with `remaining` rows left:
/// those of its text and its images, cut to what is left, and at least
/// [`MIN_MESSAGE_HEIGHT`].
pub open spec fn message_rows(
    content_lines: nat,
    attachments: nat,
    image_rows: nat,
    remaining: nat,
) -> nat {
    let wanted = text_rows(content_lines, attachments) + image_rows;
    let cut = if wanted < remaining {
        wanted
    } else {
        remaining
    };
    if cut < 3 {
        3
    } else {
        cut
    }
}

/// Where the cursor of the input box stands: `cursor` characters into the
/// text, which wraps at the inner width of the box.
pub open spec fn cursor_cell(area: Area, cursor: nat) -> (nat, nat) {
    let inner = (area.width - 2) as nat;
    let at = cursor % 65_536;
    ((area.x + 1 + at % inner) as nat, (area.y + 1 + at / inner) as nat)
}

/// The width of a notification on a screen of the given width: a third of
/// the screen, and at most forty columns.
pub open spec fn notification_width(screen_width: nat) -> nat {
    if screen_width / 3 < 40 {
        screen_width / 3
    } else {
        40
    }
}

/// Whether the notification at place `index` fits on the screen.
pub open spec fn notification_fits(index: nat, screen: Area) -> bool {
    index < 5 && index * 4 + 3 <= screen.height
}

/// How much of the bar under a notification is drawn, in columns, when
/// `permille` thousandths of its time are left.
pub open spec fn bar_columns(width: nat, permille: nat) -> nat {
    let inner = if width >= 4 {
        (width - 4) as nat
    } else {
        0
    };
    inner * permille / 1000
}

/// The rows of the input box.
pub fn input_height(lines: usize, max_lines: usize) -> (rows: u16)
    ensures
        rows == input_rows(lines as nat, max_lines as nat),
{
    let shown = if lines < 1 {
        1
    } else {
        lines
    };
    let capped = if shown > max_lines {
        max_lines
    } else {
        shown
    };
    if capped > 65_533 {
        65_535
    } else {
        (capped + 2) as u16
    }
}

/// The rows that a message takes on a screen with `remaining` rows left.
pub fn message_height(content_lines: usize, attachments: usize, image_rows: usize, remaining: u16) -> (rows:
    u16)
    ensures
        rows == message_rows(
            content_lines as nat,
            attachments as nat,
            image_rows as nat,
            remaining as nat,
        ),
{
    let content: u128 = if content_lines > 0 {
        content_lines as u128 + 1
    } else {
        0
    };
    let attached: u128 = if attachments > 0 {
        attachments as u128 + 1
    } else {
        0
    };
    let wanted: u128 = 1 + content + attached + image_rows as u128;
    let cut: u16 = if wanted < remaining as u128 {
        wanted as u16
    } else {
        remaining
    };
    if cut < MIN_MESSAGE_HEIGHT {
        MIN_MESSAGE_HEIGHT
    } else {
        cut
    }
}

/// Where the cursor of the input box stands, if the box is wide enough to
/// hold text and the place is on the grid.
pub fn cursor_position(area: Area, cursor: usize) -> (cell: Option<(u16, u16)>)
    ensures
        match cell {
            Some((x, y)) => area.width > 2 && (x as nat, y as nat) == cursor_cell(
                area,
                cursor as nat,
            ),
            None => area.width <= 2 || cursor_cell(area, cursor as nat).0 > 65_535 || cursor_cell(
                area,
                cursor as nat,
            ).1 > 65_535,
        },
{
    if area.width <= 2 {
        return None;
    }
    let inner: u32 = (area.width - 2) as u32;
    let at: u32 = (cursor % 65_536) as u32;
    let x: u32 = area.x as u32 + 1 + at % inner;
    let y: u32 = area.y as u32 + 1 + at / inner;
    if x > 65_535 || y > 65_535 {
        None
    } else {
        Some((x as u16, y as u16))
    }
}

/// The place of the notification at place `index`, if it fits on the
/// screen: at the right edge, one below the other from the top.
pub fn notification_area(index: usize, screen: Area) -> (area: Option<Area>)
    ensures
        match area {
            Some(a) => {
                &&& notification_fits(index as nat, screen)
                &&& a.width == notification_width(screen.width as nat)
                &&& a.height == NOTIFICATION_HEIGHT
                &&& a.x == if screen.width >= a.width + 1 {
                    screen.width - a.width - 1
                } else {
                    0
                }
                &&& a.y == if screen.y + index * 4 + 1 > 65_535 {
                    65_535
                } else {
                    screen.y + index * 4 + 1
                }
            },
            None => !notification_fits(index as nat, screen),
        },
{
    if index >= MAX_NOTIFICATIONS {
        return None;
    }
    let offset: u16 = (index as u16) * 4;
    if offset + NOTIFICATION_HEIGHT > screen.height {
        return None;
    }
    let third = screen.width / 3;
    let width: u16 = if third < 40 {
        third
    } else {
        40
    };
    Some(
        Area {
            x: screen.width.saturating_sub(width + 1),
            y: screen.y.saturating_add(offset + 1),
            width,
            height: NOTIFICATION_HEIGHT,
        },
    )
}

/// How much of the bar under a notification is drawn, in columns.
pub fn bar_width(width: u16, permille: u16) -> (columns: usize)
    requires
        permille <= 1000,
    ensures
        columns == bar_columns(width as nat, permille as nat),
{
    let inner: u32 = if width >= 4 {
        (width - 4) as u32
    } else {
        0
    };
    assert(inner * permille <= 65_535 * 1000) by (nonlinear_arith)
        requires
            inner <= 65_535,
            permille <= 1000,
    ;
    (inner * (permille as u32) / 1000) as usize
}

} // verus!
