use echo_session::render::render_frame;
use echo_session::session::{Message, Progression};

#[test]
fn frame_of_empty_session() {
    let p = Progression::new();
    assert_eq!(
        render_frame(&p),
        "\u{1b}[2J\r\u{1b}[1;1H\u{1b}[30;1H\u{1b}[38;5;0m\u{1b}[48;5;7m\
         Input buffer.  Press [ESC] to exit...\u{1b}[m\r\n"
    );
}

#[test]
fn frame_with_messages_and_pending_input() {
    let mut p = Progression::new();
    p.input_char('h');
    p.input_char('i');
    p.commit();
    p.input_char('a');
    p.input_char('b');
    assert_eq!(
        render_frame(&p),
        "\u{1b}[2J\r\u{1b}[1;1H\
         \u{1b}[1mme:\u{1b}[m hi\r\n\
         \u{1b}[30;1H\u{1b}[38;5;0m\u{1b}[48;5;7m\
         Input buffer.  Press [ESC] to exit...\u{1b}[m\r\nab"
    );
}

#[test]
fn frame_lists_messages_in_commit_order() {
    let mut p = Progression::new();
    p.append_msg(Message {
        sender: "me".to_string(),
        data: "one".to_string(),
    });
    p.append_msg(Message {
        sender: "me".to_string(),
        data: "two".to_string(),
    });
    let frame = render_frame(&p);
    let one = frame.find("one").unwrap();
    let two = frame.find("two").unwrap();
    assert!(one < two);
}

#[test]
fn frame_matches_termion_sequences() {
    let mut p = Progression::new();
    p.input_char('h');
    p.input_char('i');
    p.commit();
    p.input_char('a');
    let expected = format!(
        "{}\r{}{}me:{} hi\r\n{}{}{}Input buffer.  Press [ESC] to exit...{}\r\na",
        termion::clear::All,
        termion::cursor::Goto(1, 1),
        termion::style::Bold,
        termion::style::Reset,
        termion::cursor::Goto(1, 30),
        termion::color::Black.fg_str(),
        termion::color::White.bg_str(),
        termion::style::Reset,
    );
    assert_eq!(render_frame(&p), expected);
}
