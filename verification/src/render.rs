//! The renderer: builds the full text of one redraw of the interactive
//! display — clear the screen, the message log from the top, then the status
//! banner on its fixed row followed by the pending input characters.

use vstd::prelude::*;

use crate::session::{MessageView, Progression, SessionView, push_char};
use crate::term::{
    bg_white_seq, bg_white_str, bold_seq, bold_str, clear_all_seq, clear_all_str, fg_black_seq,
    fg_black_str, goto_seq, goto_str, reset_seq, reset_str,
};

verus! {

/// The row on which the status banner is drawn.
pub open spec fn status_row() -> u16 {
    30
}

/// The text of the status banner.
pub open spec fn banner_seq() -> Seq<char> {
    "Input buffer.  Press [ESC] to exit..."@
}

/// One log line: the sender in bold, a colon, then the text, ending so that
/// the cursor returns to the first column of the next row.
pub open spec fn message_line_seq(m: MessageView) -> Seq<char> {
    bold_seq() + m.sender + seq![':'] + reset_seq() + seq![' '] + m.data + seq!['\r', '\n']
}

/// The log lines, in commit order.
pub open spec fn message_lines_seq(ms: Seq<MessageView>) -> Seq<char>
    decreases ms.len(),
{
    if ms.len() == 0 {
        Seq::empty()
    } else {
        message_line_seq(ms.first()) + message_lines_seq(ms.drop_first())
    }
}

/// The status line: cursor to the banner row, the inverse-colored banner,
/// attributes reset, then the pending input characters in order.
pub open spec fn status_line_seq(buffer: Seq<char>) -> Seq<char> {
    goto_seq(1, status_row()) + fg_black_seq() + bg_white_seq() + banner_seq() + reset_seq()
        + seq!['\r', '\n'] + buffer
}

/// Everything one redraw writes.
pub open spec fn frame_seq(s: SessionView) -> Seq<char> {
    clear_all_seq() + seq!['\r'] + goto_seq(1, 1) + message_lines_seq(s.messages)
        + status_line_seq(s.buffer)
}

proof fn lemma_message_lines_snoc(ms: Seq<MessageView>, m: MessageView)
    ensures
        message_lines_seq(ms.push(m)) == message_lines_seq(ms) + message_line_seq(m),
    decreases ms.len(),
{
    if ms.len() == 0 {
        assert(ms.push(m).first() == m);
        assert(ms.push(m).drop_first() =~= Seq::<MessageView>::empty());
        assert(message_lines_seq(ms.push(m)) == message_line_seq(m) + message_lines_seq(
            Seq::<MessageView>::empty(),
        ));
        assert(message_lines_seq(ms.push(m)) =~= message_lines_seq(ms) + message_line_seq(m));
    } else {
        assert(ms.push(m).drop_first() =~= ms.drop_first().push(m));
        lemma_message_lines_snoc(ms.drop_first(), m);
        assert(message_lines_seq(ms.push(m)) =~= message_lines_seq(ms) + message_line_seq(m));
    }
}

/// The full text of one redraw of the display for the given session.
pub fn render_frame(p: &Progression) -> (r: String)
    ensures
        r@ == frame_seq(p@),
{
    let mut frame = String::new();
    frame.append(clear_all_str());
    push_char(&mut frame, '\r');
    let goto_top = goto_str(1, 1);
    frame.append(goto_top.as_str());
    let ghost header: Seq<char> = clear_all_seq() + seq!['\r'] + goto_seq(1, 1);
    proof {
        assert(frame@ =~= header);
    }

    let mut i: usize = 0;
    while i < p.messages.len()
        invariant
            i <= p.messages.len(),
            header == clear_all_seq() + seq!['\r'] + goto_seq(1, 1),
            frame@ =~= header + message_lines_seq(p@.messages.take(i as int)),
        decreases p.messages.len() - i,
    {
        let m = &p.messages[i];
        proof {
            assert(p@.messages[i as int] == m@);
        }
        frame.append(bold_str());
        frame.append(m.sender.as_str());
        push_char(&mut frame, ':');
        frame.append(reset_str());
        push_char(&mut frame, ' ');
        frame.append(m.data.as_str());
        push_char(&mut frame, '\r');
        push_char(&mut frame, '\n');
        proof {
            lemma_message_lines_snoc(p@.messages.take(i as int), p@.messages[i as int]);
            assert(p@.messages.take(i as int + 1) =~= p@.messages.take(i as int).push(
                p@.messages[i as int],
            ));
            assert(frame@ =~= header + message_lines_seq(p@.messages.take(i as int + 1)));
        }
        i = i + 1;
    }
    proof {
        assert(p@.messages.take(p.messages.len() as int) =~= p@.messages);
    }

    let goto_status = goto_str(1, 30);
    frame.append(goto_status.as_str());
    frame.append(fg_black_str());
    frame.append(bg_white_str());
    frame.append("Input buffer.  Press [ESC] to exit...");
    frame.append(reset_str());
    push_char(&mut frame, '\r');
    push_char(&mut frame, '\n');
    let ghost before_buffer: Seq<char> = frame@;
    proof {
        assert(before_buffer =~= header + message_lines_seq(p@.messages) + goto_seq(
            1,
            status_row(),
        ) + fg_black_seq() + bg_white_seq() + banner_seq() + reset_seq() + seq!['\r', '\n']);
    }

    let mut j: usize = 0;
    while j < p.input_buffer.len()
        invariant
            j <= p.input_buffer.len(),
            frame@ =~= before_buffer + p.input_buffer@.take(j as int),
        decreases p.input_buffer.len() - j,
    {
        push_char(&mut frame, p.input_buffer[j]);
        proof {
            assert(p.input_buffer@.take(j as int + 1) =~= p.input_buffer@.take(j as int).push(
                p.input_buffer@[j as int],
            ));
        }
        j = j + 1;
    }
    proof {
        assert(p.input_buffer@.take(p.input_buffer.len() as int) =~= p.input_buffer@);
        assert(frame@ =~= frame_seq(p@));
    }
    frame
}

} // verus!
