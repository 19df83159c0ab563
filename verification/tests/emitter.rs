use token_input::error::Emitter;

#[test]
fn new_emitter_holds_nothing() {
    let emitter: Emitter<u32> = Emitter::new();
    assert_eq!(emitter.errors(), Vec::<u32>::new());
}

#[test]
fn emitter_keeps_errors_in_order() {
    let mut emitter = Emitter::new();
    emitter.emit("first");
    emitter.emit("second");
    emitter.emit("first");
    assert_eq!(emitter.errors(), vec!["first", "second", "first"]);
}
