//! The pure half of the renderer: one frame of the display matrix as
//! a bordered, fixed-width block of filled/empty glyphs.
//!
//! Writing the frame to the terminal — queueing, flushing, raw-mode
//! handling — is the embedding program's business; the frame content
//! is decided here, character by character.

use vstd::prelude::*;

use crate::hal::{LCD_HEIGHT, LCD_WIDTH};

verus! {

/// Builds one frame: a top border row, one row per matrix row with a
/// border character on each side and a filled block for every lit
/// cell, and a bottom border row. Every row is exactly
/// `LCD_WIDTH + 2` characters; the caller appends line breaks.
pub fn render_frame(lcd: &Vec<Vec<bool>>) -> (frame: Vec<Vec<char>>)
    requires
        lcd@.len() == LCD_HEIGHT,
        forall|y: int| 0 <= y < LCD_HEIGHT ==> (#[trigger] lcd@[y])@.len() == LCD_WIDTH,
    ensures
        frame@.len() == LCD_HEIGHT + 2,
        forall|r: int| 0 <= r < LCD_HEIGHT + 2 ==> (#[trigger] frame@[r])@.len() == LCD_WIDTH + 2,
        frame@[0]@[0] == '┌',
        frame@[0]@[LCD_WIDTH as int + 1] == '┐',
        frame@[LCD_HEIGHT as int + 1]@[0] == '└',
        frame@[LCD_HEIGHT as int + 1]@[LCD_WIDTH as int + 1] == '┘',
        forall|c: int|
            1 <= c <= LCD_WIDTH ==> frame@[0]@[c] == '─' && frame@[LCD_HEIGHT as int + 1]@[c]
                == '─',
        forall|y: int|
            0 <= y < LCD_HEIGHT ==> (#[trigger] frame@[y + 1])@[0] == '│' && frame@[y + 1]@[
                LCD_WIDTH as int + 1] == '│',
        forall|y: int, x: int|
            #![trigger frame@[y + 1]@[x + 1]]
            0 <= y < LCD_HEIGHT && 0 <= x < LCD_WIDTH ==> frame@[y + 1]@[x + 1] == (if lcd@[y]@[x] {
                '█'
            } else {
                ' '
            }),
{
    let mut frame: Vec<Vec<char>> = Vec::new();
    frame.push(border_row('┌', '┐'));

    let mut y: usize = 0;
    while y < LCD_HEIGHT
        invariant
            lcd@.len() == LCD_HEIGHT,
            forall|r: int| 0 <= r < LCD_HEIGHT ==> (#[trigger] lcd@[r])@.len() == LCD_WIDTH,
            y <= LCD_HEIGHT,
            frame@.len() == y + 1,
            (#[trigger] frame@[0])@.len() == LCD_WIDTH + 2,
            frame@[0]@[0] == '┌',
            frame@[0]@[LCD_WIDTH as int + 1] == '┐',
            forall|c: int| 1 <= c <= LCD_WIDTH ==> frame@[0]@[c] == '─',
            forall|r: int|
                0 <= r < y ==> (#[trigger] frame@[r + 1])@.len() == LCD_WIDTH + 2,
            forall|r: int|
                0 <= r < y ==> (#[trigger] frame@[r + 1])@[0] == '│' && frame@[r + 1]@[
                    LCD_WIDTH as int + 1] == '│',
            forall|r: int, x: int|
                #![trigger frame@[r + 1]@[x + 1]]
                0 <= r < y && 0 <= x < LCD_WIDTH ==> frame@[r + 1]@[x + 1] == (if lcd@[r]@[x] {
                    '█'
                } else {
                    ' '
                }),
        decreases LCD_HEIGHT - y,
    {
        let mut row: Vec<char> = Vec::new();
        row.push('│');
        let mut x: usize = 0;
        while x < LCD_WIDTH
            invariant
                lcd@.len() == LCD_HEIGHT,
                forall|r: int| 0 <= r < LCD_HEIGHT ==> (#[trigger] lcd@[r])@.len() == LCD_WIDTH,
                y < LCD_HEIGHT,
                x <= LCD_WIDTH,
                row@.len() == x + 1,
                row@[0] == '│',
                forall|k: int|
                    0 <= k < x ==> row@[k + 1] == (if lcd@[y as int]@[k] {
                        '█'
                    } else {
                        ' '
                    }),
            decreases LCD_WIDTH - x,
        {
            let cell = lcd_cell(lcd, y, x);
            if cell {
                row.push('█');
            } else {
                row.push(' ');
            }
            x = x + 1;
        }
        row.push('│');
        frame.push(row);
        y = y + 1;
    }

    frame.push(border_row('└', '┘'));
    proof {
        assert forall|r: int| 0 <= r < LCD_HEIGHT + 2 implies (#[trigger] frame@[r])@.len()
            == LCD_WIDTH + 2 by {
            if 1 <= r <= LCD_HEIGHT {
                assert(frame@[(r - 1) + 1]@.len() == LCD_WIDTH + 2);
            }
        }
    }
    frame
}

/// One border row: the given corners around a run of horizontal bars.
fn border_row(first: char, last: char) -> (row: Vec<char>)
    ensures
        row@.len() == LCD_WIDTH + 2,
        row@[0] == first,
        row@[LCD_WIDTH as int + 1] == last,
        forall|c: int| 1 <= c <= LCD_WIDTH ==> row@[c] == '─',
{
    let mut row: Vec<char> = Vec::new();
    row.push(first);
    let mut c: usize = 0;
    while c < LCD_WIDTH
        invariant
            c <= LCD_WIDTH,
            row@.len() == c + 1,
            row@[0] == first,
            forall|k: int| 1 <= k <= c ==> row@[k] == '─',
        decreases LCD_WIDTH - c,
    {
        row.push('─');
        c = c + 1;
    }
    row.push(last);
    row
}

/// One matrix cell.
fn lcd_cell(lcd: &Vec<Vec<bool>>, y: usize, x: usize) -> (b: bool)
    requires
        y < lcd@.len(),
        x < lcd@[y as int]@.len(),
    ensures
        b == lcd@[y as int]@[x as int],
{
    let row: &Vec<bool> = &lcd[y];
    row[x]
}

} // verus!
