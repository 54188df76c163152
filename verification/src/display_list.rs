//! Drawing as a list of steps: what is to be drawn is decided first and
//! drawn afterwards, step by step, later steps over earlier ones.

use vstd::prelude::*;
use crate::fonts::{draw_char, draw_string};
use crate::graphics::{DrawCommand, Graphics, Screen, all_valid, list_paint, lemma_drawn_over, no_paint};

verus! {

/// Carries out one step.
pub fn run_command(graphics: &mut Graphics, command: &DrawCommand)
    requires
        old(graphics)@.wf(),
        command.valid(),
    ensures
        final(graphics)@.drawn(old(graphics)@, command.paint()),
{
    match command {
        DrawCommand::FillRect { x, y, width, height, color } => {
            graphics.fill_rect(*x, *y, *width, *height, *color);
        },
        DrawCommand::Frame { x, y, width, height, color, thickness } => {
            graphics.draw_rect(*x, *y, *width, *height, *color, *thickness);
        },
        DrawCommand::Line { x0, y0, x1, y1, color } => {
            graphics.draw_line(*x0, *y0, *x1, *y1, *color);
        },
        DrawCommand::Text { x, y, text, color } => {
            draw_string(graphics, *x, *y, *text, *color);
        },
        DrawCommand::Glyph { x, y, ch, color } => {
            draw_char(graphics, *x, *y, *ch, *color);
        },
    }
}

/// Carries out the steps in order.
pub fn run(graphics: &mut Graphics, commands: &Vec<DrawCommand>)
    requires
        old(graphics)@.wf(),
        all_valid(commands@),
    ensures
        final(graphics)@.drawn(old(graphics)@, list_paint(commands@, commands@.len() as int)),
{
    let mut i: usize = 0;
    assert(graphics@.drawn(old(graphics)@, no_paint()));
    while i < commands.len()
        invariant
            0 <= i <= commands.len(),
            old(graphics)@.wf(),
            all_valid(commands@),
            graphics@.drawn(old(graphics)@, list_paint(commands@, i as int)),
        decreases commands.len() - i,
    {
        let ghost mid = graphics@;
        run_command(graphics, &commands[i]);
        proof {
            lemma_drawn_over(
                old(graphics)@,
                mid,
                graphics@,
                list_paint(commands@, i as int),
                commands@[i as int].paint(),
            );
        }
        i = i + 1;
    }
}

} // verus!
