use nyan::cursor::Cursor;
use nyan::errors::NyanError;
use nyan::nyanobj::NyanObj;
use nyan::nyanterm::NyanTermObjs;
use nyan::objects::{DrawPlan, Objects};

fn line(cursor: Option<Cursor>, text: &str) -> DrawPlan {
    DrawPlan { cursor, line: Some(text.to_string()) }
}

#[test]
fn new_text_holds_its_content() {
    assert_eq!(Objects::new_text("Hello world!"), Objects::Text("Hello world!".to_string()));
    assert_eq!(Objects::new_text(""), Objects::Text(String::new()));
}

#[test]
fn drawing_a_missing_object_fails() {
    let registry = NyanObj::new();
    assert_eq!(
        registry.draw_object("missing"),
        Err(NyanError::ObjectNotFound("missing".to_string()))
    );
    assert_eq!(
        registry.draw_with_move("missing", Cursor::new(1, 1)),
        Err(NyanError::ObjectNotFound("missing".to_string()))
    );
}

#[test]
fn added_object_is_drawn() {
    let mut registry = NyanObj::new();
    registry.add_object("greeting", Objects::new_text("hi"));
    assert_eq!(registry.draw_object("greeting"), Ok(line(None, "hi")));
    registry.add_object("nothing", Objects::Air);
    assert_eq!(registry.draw_object("nothing"), Ok(DrawPlan { cursor: None, line: None }));
}

#[test]
fn draw_with_move_moves_first() {
    let mut registry = NyanObj::new();
    registry.add_object("frame", Objects::new_text("42"));
    assert_eq!(
        registry.draw_with_move("frame", Cursor::new(0, 24)),
        Ok(line(Some(Cursor::Move(0, 24)), "42"))
    );
    assert_eq!(
        registry.draw_with_move("frame", Cursor::MoveToNextLine(1)),
        Ok(line(Some(Cursor::MoveToNextLine(1)), "42"))
    );
    registry.add_object("gap", Objects::Air);
    assert_eq!(
        registry.draw_with_move("gap", Cursor::MoveToNextLine(1)),
        Ok(DrawPlan { cursor: Some(Cursor::MoveToNextLine(1)), line: None })
    );
}

#[test]
fn drawing_a_block_fails() {
    let mut registry = NyanObj::new();
    registry.add_object("wall", Objects::Block);
    assert_eq!(registry.draw_object("wall"), Err(NyanError::DrawFailed("wall".to_string())));
    assert_eq!(
        registry.draw_with_move("wall", Cursor::new(2, 2)),
        Err(NyanError::DrawFailed("wall".to_string()))
    );
}

#[test]
fn removing_an_absent_object_fails() {
    let mut registry = NyanObj::new();
    assert_eq!(
        registry.remove_object("ghost"),
        Err(NyanError::ObjectNotFound("ghost".to_string()))
    );
    registry.add_object("here", Objects::Air);
    assert_eq!(
        registry.remove_object("ghost"),
        Err(NyanError::ObjectNotFound("ghost".to_string()))
    );
    assert_eq!(registry.draw_object("here"), Ok(DrawPlan { cursor: None, line: None }));
}

#[test]
fn removed_object_is_no_longer_drawn() {
    let mut registry = NyanObj::new();
    registry.add_object("a", Objects::new_text("first"));
    registry.add_object("b", Objects::new_text("second"));
    assert_eq!(registry.remove_object("a"), Ok(()));
    assert_eq!(registry.draw_object("a"), Err(NyanError::ObjectNotFound("a".to_string())));
    assert_eq!(registry.draw_object("b"), Ok(line(None, "second")));
    assert_eq!(registry.remove_object("a"), Err(NyanError::ObjectNotFound("a".to_string())));
}

#[test]
fn adding_twice_keeps_the_second_object() {
    let mut registry = NyanObj::new();
    registry.add_object("slot", Objects::new_text("old"));
    registry.add_object("slot", Objects::new_text("new"));
    assert_eq!(registry.draw_object("slot"), Ok(line(None, "new")));
    assert_eq!(registry.remove_object("slot"), Ok(()));
    assert_eq!(registry.draw_object("slot"), Err(NyanError::ObjectNotFound("slot".to_string())));
}

#[test]
fn update_replaces_the_object() {
    let mut registry = NyanObj::new();
    registry.add_object("frame", Objects::Air);
    registry.update_object("frame", Objects::new_text("1"));
    assert_eq!(registry.draw_object("frame"), Ok(line(None, "1")));
    registry.update_object("frame", Objects::new_text("2"));
    assert_eq!(registry.draw_object("frame"), Ok(line(None, "2")));
}

#[test]
fn update_registers_a_new_identifier() {
    let mut registry = NyanObj::new();
    registry.update_object("fresh", Objects::new_text("made"));
    assert_eq!(registry.draw_object("fresh"), Ok(line(None, "made")));
}

#[test]
fn identifiers_are_compared_exactly() {
    let mut registry = NyanObj::new();
    registry.add_object("Frame", Objects::new_text("upper"));
    assert_eq!(registry.draw_object("frame"), Err(NyanError::ObjectNotFound("frame".to_string())));
    assert_eq!(registry.draw_object("Frame "), Err(NyanError::ObjectNotFound("Frame ".to_string())));
    registry.add_object("", Objects::new_text("nameless"));
    assert_eq!(registry.draw_object(""), Ok(line(None, "nameless")));
}

#[test]
fn small_registry_adds_and_draws() {
    let mut registry = NyanTermObjs::new();
    assert_eq!(
        registry.draw_object("text".to_string()),
        Err(NyanError::ObjectNotFound("text".to_string()))
    );
    registry.add_object("text".to_string(), Objects::new_text("Hello world!"));
    assert_eq!(registry.draw_object("text".to_string()), Ok(line(None, "Hello world!")));
    registry.add_object("text".to_string(), Objects::Air);
    assert_eq!(
        registry.draw_object("text".to_string()),
        Ok(DrawPlan { cursor: None, line: None })
    );
    registry.add_object("block".to_string(), Objects::Block);
    assert_eq!(
        registry.draw_object("block".to_string()),
        Err(NyanError::DrawFailed("block".to_string()))
    );
}
