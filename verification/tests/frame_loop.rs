use nyan::app::App;
use nyan::cursor::Cursor;
use nyan::driver::DriverOp;
use nyan::input::{NyanInput, NyanKey, RawKeyCode, RawKeyEvent};
use nyan::nyanobj::NyanObj;
use nyan::objects::{DrawPlan, Objects};

fn press(code: RawKeyCode, shift: bool, control: bool) -> Option<RawKeyEvent> {
    Some(RawKeyEvent { code, shift, control, alt: false })
}

#[test]
fn test() {
    let mut nyan = App::new(60).clear().raw_mode().alternate_screen().hide_cursor();

    let mut obj = NyanObj::new();

    obj.add_object("hello_world", Objects::new_text("Hello world!"));
    let dbged = format!("{:?}", &nyan);

    obj.add_object("Test_NyanTerm_dbg", Objects::new_text(&dbged));
    obj.add_object("input_key", Objects::Air);
    obj.add_object("surash", Objects::Air);
    obj.add_object("frame", Objects::Air);
    obj.add_object("Character", Objects::new_text("□"));

    let polls = [
        None,
        press(RawKeyCode::Char('/'), false, false),
        press(RawKeyCode::Char('a'), false, false),
        press(RawKeyCode::Up, false, false),
        press(RawKeyCode::Char('c'), false, true),
    ];
    let height: u16 = 24;
    let mut frame = 0u64;
    let mut enabled = 0;

    for polled in polls {
        frame += 1;
        obj.update_object("frame", Objects::new_text(&frame.to_string()));

        let plan = nyan.draw();
        assert_eq!(plan.sleep_ms, 16);
        enabled += plan.setup.iter().filter(|op| **op == DriverOp::EnableRawMode).count();
        nyan.started();

        obj.draw_object("hello_world").unwrap();
        obj.draw_with_move("Test_NyanTerm_dbg", Cursor::MoveToNextLine(1)).unwrap();
        obj.draw_with_move("surash", Cursor::MoveToNextLine(1)).unwrap();
        obj.draw_with_move("Character", Cursor::MoveToNextLine(1)).unwrap();
        let counter = obj.draw_with_move("frame", Cursor::new(0, height)).unwrap();
        assert_eq!(
            counter,
            DrawPlan { cursor: Some(Cursor::Move(0, height)), line: Some(frame.to_string()) }
        );

        match NyanInput::get_input(polled) {
            NyanInput::Ctrl(NyanKey::C) => {
                break;
            }
            NyanInput::Key(NyanKey::OtherKey('/')) => {
                obj.update_object("surash", Objects::new_text("inputed"));
            }
            NyanInput::Key(NyanKey::A) => {
                obj.update_object("hello_world", Objects::new_text("You Plessed \"A\"!"));
            }
            NyanInput::UpAllow => {
                obj.update_object("Character", Objects::new_text("□ < なに？"));
            }
            _ => {}
        }
    }

    assert_eq!(frame, 5);
    assert_eq!(enabled, 1);
    assert_eq!(obj.draw_object("surash").unwrap().line, Some("inputed".to_string()));
    assert_eq!(
        obj.draw_object("hello_world").unwrap().line,
        Some("You Plessed \"A\"!".to_string())
    );
    assert_eq!(obj.draw_object("Character").unwrap().line, Some("□ < なに？".to_string()));
    assert_eq!(obj.draw_object("Test_NyanTerm_dbg").unwrap().line, Some(dbged));

    let teardown = nyan.exit();
    assert_eq!(teardown.last(), Some(&DriverOp::DisableRawMode));
}

#[test]
fn shift_q_is_seen_as_a_shifted_key() {
    let input = NyanInput::get_input(press(RawKeyCode::Char('Q'), true, false));
    match input {
        NyanInput::Shift(inner) => assert_eq!(*inner, NyanInput::Key(NyanKey::Q)),
        other => panic!("unexpected input {:?}", other),
    }
}
