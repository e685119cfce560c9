use nyan::cursor::Cursor;
use nyan::errors::NyanError;
use nyan::nyan_obj::{NyanObj, NyanObjs};
use nyan::objects::{DrawPlan, Objects};

fn line(cursor: Cursor, text: &str) -> DrawPlan {
    DrawPlan { cursor: Some(cursor), line: Some(text.to_string()) }
}

#[test]
fn greeting_is_drawn_at_the_origin() {
    let mut registry = NyanObj::new();
    registry.add_object("greeting", Objects::new_text("hi"), (0, 0));
    assert_eq!(
        registry.draw_object("greeting"),
        Ok(DrawPlan { cursor: Some(Cursor::Move(0, 0)), line: Some("hi".to_string()) })
    );
}

#[test]
fn missing_object_in_an_empty_registry() {
    let registry = NyanObj::new();
    assert_eq!(
        registry.draw_object("missing"),
        Err(NyanError::ObjectNotFound("missing".to_string()))
    );
    assert_eq!(registry.get("missing"), None);
}

#[test]
fn object_is_drawn_at_its_stored_position() {
    let mut registry = NyanObj::new();
    registry.add_object("text1", Objects::new_text("Hello, world!"), (10, 5));
    assert_eq!(registry.draw_object("text1"), Ok(line(Cursor::Move(10, 5), "Hello, world!")));
    assert_eq!(
        registry.draw_with_move("text1", Cursor::new(20, 10)),
        Ok(line(Cursor::Move(20, 10), "Hello, world!"))
    );
    assert_eq!(
        registry.draw_with_move("text1", Cursor::MoveUp(2)),
        Ok(line(Cursor::MoveUp(2), "Hello, world!"))
    );
}

#[test]
fn default_position_is_the_origin() {
    let mut registry = NyanObj::new();
    registry.add_object_with_default("air", Objects::Air);
    assert_eq!(
        registry.draw_object("air"),
        Ok(DrawPlan { cursor: Some(Cursor::Move(0, 0)), line: None })
    );
}

#[test]
fn get_finds_the_first_entry() {
    let mut registry = NyanObj::new();
    registry.add_object("a", Objects::Air, (1, 1));
    registry.add_object("b", Objects::Air, (2, 2));
    registry.add_object("a", Objects::Air, (3, 3));
    assert_eq!(registry.get("a"), Some(0));
    assert_eq!(registry.get("b"), Some(1));
    assert_eq!(registry.get("c"), None);
}

#[test]
fn first_entry_of_a_repeated_identifier_is_drawn() {
    let mut registry = NyanObj::new();
    registry.add_object("dup", Objects::new_text("one"), (1, 1));
    registry.add_object("dup", Objects::new_text("two"), (2, 2));
    assert_eq!(registry.draw_object("dup"), Ok(line(Cursor::Move(1, 1), "one")));
    assert_eq!(registry.remove_object("dup"), Ok(()));
    assert_eq!(registry.draw_object("dup"), Ok(line(Cursor::Move(2, 2), "two")));
    assert_eq!(registry.remove_object("dup"), Ok(()));
    assert_eq!(registry.draw_object("dup"), Err(NyanError::ObjectNotFound("dup".to_string())));
}

#[test]
fn remove_reports_an_absent_identifier() {
    let mut registry = NyanObj::new();
    assert_eq!(registry.remove_object("x"), Err(NyanError::ObjectNotFound("x".to_string())));
    registry.add_object("y", Objects::new_text("still here"), (4, 4));
    assert_eq!(registry.remove_object("x"), Err(NyanError::ObjectNotFound("x".to_string())));
    assert_eq!(registry.draw_object("y"), Ok(line(Cursor::Move(4, 4), "still here")));
}

#[test]
fn remove_keeps_the_other_entries_in_order() {
    let mut registry = NyanObj::new();
    registry.add_object("a", Objects::Air, (0, 0));
    registry.add_object("b", Objects::Air, (0, 1));
    registry.add_object("c", Objects::Air, (0, 2));
    assert_eq!(registry.remove_object("b"), Ok(()));
    assert_eq!(registry.get("a"), Some(0));
    assert_eq!(registry.get("c"), Some(1));
    assert_eq!(registry.get("b"), None);
}

#[test]
fn update_is_strict() {
    let mut registry = NyanObj::new();
    assert_eq!(
        registry.update_object("frame", Objects::new_text("1"), (0, 9)),
        Err(NyanError::ObjectNotFound("frame".to_string()))
    );
    assert_eq!(registry.get("frame"), None);
    registry.add_object("frame", Objects::Air, (0, 0));
    registry.add_object("other", Objects::Air, (5, 5));
    assert_eq!(registry.update_object("frame", Objects::new_text("1"), (0, 9)), Ok(()));
    assert_eq!(registry.draw_object("frame"), Ok(line(Cursor::Move(0, 9), "1")));
    assert_eq!(registry.get("other"), Some(0));
    assert_eq!(registry.get("frame"), Some(1));
}

#[test]
fn block_is_not_drawn() {
    let mut registry = NyanObj::new();
    registry.add_object("wall", Objects::Block, (3, 3));
    assert_eq!(registry.draw_object("wall"), Err(NyanError::DrawFailed("wall".to_string())));
    assert_eq!(
        registry.draw_with_move("wall", Cursor::MoveDown(1)),
        Err(NyanError::DrawFailed("wall".to_string()))
    );
}

#[test]
fn failed_move_is_reported_with_the_message_of_its_cause() {
    let cause = Cursor::move_failed("stdout closed");
    assert_eq!(
        NyanObj::move_failed(&cause),
        NyanError::Cursor("Failed to move cursor: stdout closed".to_string())
    );
    assert_eq!(
        NyanObj::move_failed(&cause).message(),
        "Failed to move cursor: Failed to move cursor: stdout closed"
    );
}

#[test]
fn entries_can_be_built_directly() {
    let entry = NyanObjs::new(Objects::new_text("t"), "id".to_string(), (7, 8));
    let text = format!("{:?}", entry);
    assert!(text.contains("id"));
    assert!(text.contains("7"));
    assert!(text.contains("8"));
}
