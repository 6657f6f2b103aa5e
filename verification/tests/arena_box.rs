use arena_box::shapes::{augment, build_data, build_error, set_details, set_msg, AugmentedData,
    Data, MyError};
use arena_box::shapes::{ArenaAugmentedData, ArenaData, ArenaMyError};
use arena_box::{Arena, ArenaBox};

#[test]
fn test_build() {
    let boxed = ArenaData::new(|arena: Arena| {
        let mut a = arena;
        let msg = a.alloc_str("Something");
        (Data { msg }, a)
    });
    assert_eq!(boxed.get_str(boxed.get().msg), "Something");
}

#[test]
fn test_update() {
    let boxed = ArenaData::new(|arena: Arena| {
        let mut a = arena;
        let msg = a.alloc_str("Something");
        (Data { msg }, a)
    });
    assert_eq!(boxed.get_str(boxed.get().msg), "Something");

    let mut handle = boxed.mutate();
    let msg = handle.alloc_str("Something different");
    handle.set(Data { msg });
    let boxed = handle.finish();

    let message = boxed.get_str(boxed.get().msg);
    assert_eq!(message, "Something different");
}

#[test]
fn test_update_twice() {
    let boxed = ArenaData::new(|arena: Arena| {
        let mut a = arena;
        let msg = a.alloc_str("Something");
        (Data { msg }, a)
    });
    assert_eq!(boxed.get_str(boxed.get().msg), "Something");

    let mut handle = boxed.mutate();
    let msg = handle.alloc_str("Something different");
    handle.set(Data { msg });
    let boxed = handle.finish();

    assert_eq!(boxed.get_str(boxed.get().msg), "Something different");

    let mut handle = boxed.mutate();
    let msg = handle.alloc_str("Something else");
    handle.set(Data { msg });
    let boxed = handle.finish();

    assert_eq!(boxed.get_str(boxed.get().msg), "Something else");
}

fn do_something(boxed: ArenaBox<Data>) {
    // ArenaBox moved here
    assert_eq!(boxed.get_str(boxed.get().msg), "Foo");
}

#[test]
fn test_move() {
    let boxed = ArenaData::new(|arena: Arena| {
        let mut a = arena;
        let msg = a.alloc_str("Foo");
        (Data { msg }, a)
    });
    let r = boxed.get();
    assert_eq!(boxed.get_str(r.msg), "Foo");
    do_something(boxed);
}

#[test]
fn test_new_from() {
    let a = ArenaData::new(|arena: Arena| {
        let mut ar = arena;
        let msg = ar.alloc_str("hello");
        (Data { msg }, ar)
    });

    let b = ArenaAugmentedData::new_from(a, |arena: Arena, data: Data| {
        let mut ar = arena;
        let extra = ar.alloc_str("extra info");
        (AugmentedData { data, extra }, ar)
    });

    assert_eq!(b.get_str(b.get().data.msg), "hello");
    assert_eq!(b.get_str(b.get().extra), "extra info");
}

#[test]
fn test_as_an_error() {
    fn return_err() -> Result<(), ArenaMyError> {
        Err(ArenaMyError::new(|arena: Arena| {
            let mut a = arena;
            let message = a.alloc_str("an error happened");
            let details = a.alloc_str("");
            (MyError { message, details }, a)
        }))
    }
    let result = return_err().map_err(|e| {
        // Handle the error here
        let mut handle = e.mutate();
        let message = handle.get().message;
        let details = handle.alloc_str("while running this test case");
        handle.set(MyError { message, details });
        handle.finish()
    });
    let Err(e) = result else {
        panic!("Expected an error");
    };
    assert_eq!(e.get_str(e.get().message), "an error happened");
    assert_eq!(e.get_str(e.get().details), "while running this test case");
    assert_eq!("an error happened", e.display_string());
    assert_eq!(
        r#"MyError { message: "an error happened", details: "while running this test case" }"#,
        e.debug_string()
    );
}

#[test]
fn test_equality() {
    let a = ArenaMyError::new(|arena: Arena| {
        let mut ar = arena;
        let message = ar.alloc_str("an error happened");
        let details = ar.alloc_str("while running this test case");
        (MyError { message, details }, ar)
    });
    let b = ArenaMyError::new(|arena: Arena| {
        let mut ar = arena;
        let message = ar.alloc_str("an error happened");
        let details = ar.alloc_str("while running this test case");
        (MyError { message, details }, ar)
    });
    assert_eq!(a, b);

    let mut handle = b.mutate();
    let message = handle.get().message;
    let details = handle.alloc_str("");
    handle.set(MyError { message, details });
    let b = handle.finish();

    assert_ne!(a, b);
}

#[test]
fn test_build_data_helper() {
    let b = build_data("Something");
    assert_eq!(b.get_str(b.get().msg), "Something");
}

#[test]
fn test_replay_matches_direct() {
    // Replacing the message with the same text twice shows exactly what a
    // container built directly over that text shows.
    let b = build_data("Something");
    let once = set_msg(b, "Something different");
    let twice = set_msg(once, "Something different");
    let direct = build_data("Something different");
    assert_eq!(
        twice.get_str(twice.get().msg),
        direct.get_str(direct.get().msg)
    );
    assert_eq!(twice.get_str(twice.get().msg), "Something different");
}

#[test]
fn test_augment_preserves_original() {
    // The wrapped record keeps resolving to what the source showed before
    // the derivation.
    let source = build_data("hello");
    let wrapped = augment(source, "extra info");
    assert_eq!(wrapped.get_str(wrapped.get().data.msg), "hello");
    assert_eq!(wrapped.get_str(wrapped.get().extra), "extra info");
}

#[test]
fn test_equality_ignores_garbage() {
    // A container that reached its content through amendments, leaving
    // abandoned slots behind, still equals one built directly with the same
    // content.
    let direct = build_error("an error happened", "while running this test case");
    let amended = build_error("an error happened", "");
    let amended = set_details(amended, "wrong details");
    let amended = set_details(amended, "while running this test case");
    assert_eq!(direct, amended);
}

#[test]
fn test_empty_strings() {
    let b = build_error("", "");
    assert_eq!(b.get_str(b.get().message), "");
    assert_eq!(b.get_str(b.get().details), "");
    assert_eq!(b.display_string(), "");
    assert_eq!(b.debug_string(), r#"MyError { message: "", details: "" }"#);
}

#[test]
fn test_lookup_str_out_of_range() {
    // A forged handle that names no slot resolves to the empty string
    // through the total lookup.
    let b = build_data("Something");
    let forged = arena_box::StrRef { i: 7 };
    assert_eq!(b.lookup_str(forged), "");
}

#[test]
fn test_error_scenario_display_and_debug() {
    let e = build_error("an error happened", "");
    assert_eq!(e.display_string(), "an error happened");
    let e = set_details(e, "while running this test case");
    assert_eq!(e.display_string(), "an error happened");
    assert_eq!(
        e.debug_string(),
        r#"MyError { message: "an error happened", details: "while running this test case" }"#
    );
}

#[test]
fn test_mut_handle_arena_reads_back() {
    let b = build_data("Something");
    let mut handle = b.mutate();
    let msg = handle.alloc_str("Something different");
    assert_eq!(handle.arena().get_str(msg), "Something different");
    let old = handle.get().msg;
    assert_eq!(handle.arena().get_str(old), "Something");
    handle.set(Data { msg });
    let b = handle.finish();
    assert_eq!(b.get_str(b.get().msg), "Something different");
}
