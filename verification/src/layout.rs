//! The arithmetic of the screen: how a popup is cut out of the terminal
//! and where an input field scrolls to and shows its cursor.

use vstd::prelude::*;
use vstd::string::StringSliceAdditionalSpecFns;

verus! {

/// A rectangle of terminal cells.
#[derive(Clone, Copy, Debug, PartialEq, Eq, Structural)]
pub struct Area {
    pub x: u16,
    pub y: u16,
    pub width: u16,
    pub height: u16,
}

/// How much of an extent a part of it takes.
#[derive(Clone, Copy, Debug, PartialEq, Eq, Structural)]
pub enum Span {
    /// A share of the whole, in hundredths.
    Percentage(u16),
    /// A number of cells.
    Length(u16),
}

/// A popup along one axis: the two margins beside it, and the popup.
#[derive(Clone, Copy, Debug, PartialEq, Eq, Structural)]
pub struct PopupAxis {
    pub margin: Span,
    pub popup: Span,
}

/// A popup along both axes.
#[derive(Clone, Copy, Debug, PartialEq, Eq, Structural)]
pub struct PopupSpans {
    pub rows: PopupAxis,
    pub columns: PopupAxis,
}

/// Whether a popup is measured in hundredths of the terminal: where that
/// was asked for, and where the popup in cells is wider or higher than
/// the terminal.
pub open spec fn by_percentage(value_x: u16, value_y: u16, asked: bool, area: Area) -> bool {
    asked || value_x > area.width || value_y > area.height
}

/// A popup of `value` along an extent of `available` cells, centred: the
/// margins share what the popup leaves, rounded down.
pub open spec fn centred(value: u16, available: u16, percentage: bool) -> PopupAxis {
    if percentage {
        PopupAxis {
            margin: Span::Percentage(((100 - value) / 2) as u16),
            popup: Span::Percentage(value),
        }
    } else {
        PopupAxis {
            margin: Span::Length(((available - value) / 2) as u16),
            popup: Span::Length(value),
        }
    }
}

/// The spans of a centred popup of `value_x` by `value_y` in the terminal.
pub open spec fn popup_spans_of(value_x: u16, value_y: u16, asked: bool, area: Area) -> PopupSpans {
    let percentage = by_percentage(value_x, value_y, asked, area);
    PopupSpans {
        rows: centred(value_y, area.height, percentage),
        columns: centred(value_x, area.width, percentage),
    }
}

/// A popup in hundredths takes at most a hundred of them.
pub open spec fn popup_fits(value_x: u16, value_y: u16, asked: bool, area: Area) -> bool {
    by_percentage(value_x, value_y, asked, area) ==> value_x <= 100 && value_y <= 100
}

/// Cuts a centred popup out of the terminal; nothing where the popup
/// takes more than the whole of it.
pub fn popup_spans(value_x: u16, value_y: u16, use_percentage: bool, area: Area) -> (spans: Option<
    PopupSpans,
>)
    ensures
        spans == if popup_fits(value_x, value_y, use_percentage, area) {
            Some(popup_spans_of(value_x, value_y, use_percentage, area))
        } else {
            None
        },
{
    let percentage = use_percentage || value_x > area.width || value_y > area.height;
    if percentage {
        if value_x > 100 || value_y > 100 {
            return None;
        }
        Some(
            PopupSpans {
                rows: PopupAxis {
                    margin: Span::Percentage((100 - value_y) / 2),
                    popup: Span::Percentage(value_y),
                },
                columns: PopupAxis {
                    margin: Span::Percentage((100 - value_x) / 2),
                    popup: Span::Percentage(value_x),
                },
            },
        )
    } else {
        Some(
            PopupSpans {
                rows: PopupAxis {
                    margin: Span::Length((area.height - value_y) / 2),
                    popup: Span::Length(value_y),
                },
                columns: PopupAxis {
                    margin: Span::Length((area.width - value_x) / 2),
                    popup: Span::Length(value_x),
                },
            },
        )
    }
}

/// The byte that ends a line.
pub open spec fn line_feed() -> u8 {
    10
}

/// How many line feeds the bytes hold.
pub open spec fn line_feeds(bytes: Seq<u8>) -> nat
    decreases bytes.len(),
{
    if bytes.len() == 0 {
        0
    } else {
        line_feeds(bytes.drop_last()) + if bytes.last() == line_feed() {
            1nat
        } else {
            0nat
        }
    }
}

/// How many bytes stand behind the last line feed.
pub open spec fn last_piece_len(bytes: Seq<u8>) -> nat
    decreases bytes.len(),
{
    if bytes.len() == 0 {
        0
    } else if bytes.last() == line_feed() {
        0
    } else {
        last_piece_len(bytes.drop_last()) + 1
    }
}

/// A count as the screen takes it: its low sixteen bits.
pub open spec fn low_bits(count: nat) -> u16 {
    (count % 0x10000) as u16
}

/// The lines of a text as the field counts them: one more than its line
/// feeds, in sixteen bits, and at least one.
pub open spec fn lines_of(bytes: Seq<u8>) -> u16 {
    if low_bits(line_feeds(bytes) + 1) == 0 {
        1
    } else {
        low_bits(line_feeds(bytes) + 1)
    }
}

/// The field scrolls where it has more lines than fit between its
/// borders.
pub open spec fn scrolls(lines: u16, area: Area) -> bool {
    area.height > 1 && lines > area.height - 2
}

/// A cell of the terminal.
#[derive(Clone, Copy, Debug, PartialEq, Eq, Structural)]
pub struct Position {
    pub column: u16,
    pub row: u16,
}

/// What an input field needs besides its text.
#[derive(Clone, Copy, Debug, PartialEq, Eq, Structural)]
pub struct InputView {
    /// By how many lines the text is scrolled up, where it scrolls.
    pub scroll: Option<u16>,
    /// The cell of the cursor, where the field shows one.
    pub cursor: Option<Position>,
}

/// The arithmetic of an input field stays within sixteen bits.
pub open spec fn input_fits(bytes: Seq<u8>, set_cursor: bool, area: Area) -> bool {
    let lines = lines_of(bytes);
    &&& scrolls(lines, area) ==> lines + 3 <= u16::MAX
    &&& set_cursor ==> {
        &&& area.x + low_bits(last_piece_len(bytes)) + 1 <= u16::MAX
        &&& area.y + lines <= u16::MAX
        &&& scrolls(lines, area) ==> 3 <= area.y + area.height <= u16::MAX
    }
}

/// Scroll and cursor of an input field. A scrolled field shows its last
/// lines and the cursor on the last row inside the border; an unscrolled
/// one shows the cursor on the row of its last line. The cursor stands
/// behind the last byte of the last line.
pub open spec fn input_view_of(bytes: Seq<u8>, set_cursor: bool, area: Area) -> InputView {
    let lines = lines_of(bytes);
    InputView {
        scroll: if scrolls(lines, area) {
            Some((lines + 3 - area.height) as u16)
        } else {
            None
        },
        cursor: if set_cursor {
            Some(
                Position {
                    column: (area.x + low_bits(last_piece_len(bytes)) + 1) as u16,
                    row: if scrolls(lines, area) {
                        (area.y + area.height - 3) as u16
                    } else {
                        (area.y + lines) as u16
                    },
                },
            )
        } else {
            None
        },
    }
}

/// Computes scroll and cursor of an input field that shows `input` in
/// `area`; nothing where the arithmetic leaves sixteen bits.
pub fn input_view(input: &str, set_cursor: bool, area: Area) -> (view: Option<InputView>)
    ensures
        view == if input_fits(input.spec_bytes(), set_cursor, area) {
            Some(input_view_of(input.spec_bytes(), set_cursor, area))
        } else {
            None
        },
{
    let bytes = input.as_bytes();
    let mut feeds: u32 = 0;
    let mut piece: u32 = 0;
    let mut i: usize = 0;
    while i < bytes.len()
        invariant
            i <= bytes@.len(),
            feeds == line_feeds(bytes@.take(i as int)) % 0x10000,
            piece == last_piece_len(bytes@.take(i as int)) % 0x10000,
        decreases bytes@.len() - i,
    {
        proof {
            let seen = bytes@.take(i as int);
            let next = bytes@.take(i + 1);
            assert(next.drop_last() =~= seen);
        }
        if bytes[i] == 10 {
            feeds = (feeds + 1) % 0x10000;
            piece = 0;
        } else {
            piece = (piece + 1) % 0x10000;
        }
        i += 1;
    }
    assert(bytes@.take(i as int) =~= bytes@);
    let counted: u32 = (feeds + 1) % 0x10000;
    let lines: u32 = if counted == 0 {
        1
    } else {
        counted
    };
    let x: u32 = area.x as u32;
    let y: u32 = area.y as u32;
    let height: u32 = area.height as u32;
    let limit: u32 = 0xffff;
    let did_scroll = height > 1 && lines > height - 2;
    let scroll = if did_scroll {
        if lines + 3 > limit {
            return None;
        }
        Some((lines + 3 - height) as u16)
    } else {
        None
    };
    let cursor = if set_cursor {
        if x + piece + 1 > limit || y + lines > limit {
            return None;
        }
        let row: u32 = if did_scroll {
            if y + height < 3 || y + height > limit {
                return None;
            }
            y + height - 3
        } else {
            y + lines
        };
        Some(Position { column: (x + piece + 1) as u16, row: row as u16 })
    } else {
        None
    };
    Some(InputView { scroll, cursor })
}

} // verus!
