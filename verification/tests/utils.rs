use lo_wasm::utils::{
    read_error_message, read_step, resolve_path, ListDisplay, LoError, LoLocation, LoPosition,
    RangeDisplay, ReadAction, ReadEvent, WasiArgs, ERRNO_AGAIN, STDIN_FD,
};

fn location() -> LoLocation {
    LoLocation {
        file_name: String::from("src/main.lo"),
        pos: LoPosition { offset: 120, line: 12, col: 5 },
        end_pos: LoPosition { offset: 131, line: 13, col: 40 },
    }
}

#[test]
fn internal_location_is_the_first_position_of_no_file() {
    let loc = LoLocation::internal();
    assert_eq!(loc.file_name, "<internal>");
    assert_eq!(loc.pos, LoPosition { offset: 0, line: 1, col: 1 });
    assert_eq!(loc.end_pos, LoPosition { offset: 0, line: 1, col: 1 });
    assert_eq!(loc.to_string(), "<internal>:1:1");
}

#[test]
fn unreachable_error_names_the_place_that_found_it() {
    let err = LoError::unreachable("src/parser.rs", 1024);
    assert_eq!(err.message, "Unreachable in src/parser.rs:1024");
    assert_eq!(err.loc, LoLocation::internal());
    let err = LoError::unreachable("", 0);
    assert_eq!(err.message, "Unreachable in :0");
    let err = LoError::unreachable("x", u32::MAX);
    assert_eq!(err.message, format!("Unreachable in {}:{}", "x", u32::MAX));
}

#[test]
fn location_shows_file_line_and_column() {
    assert_eq!(location().to_string(), "src/main.lo:12:5");
    let far = LoLocation {
        file_name: String::from("a"),
        pos: LoPosition { offset: 0, line: usize::MAX, col: 0 },
        end_pos: LoPosition { offset: 0, line: 0, col: 0 },
    };
    assert_eq!(far.to_string(), format!("a:{}:0", usize::MAX));
}

#[test]
fn error_shows_location_then_message() {
    let err = LoError { message: String::from("Unknown type: Foo"), loc: location() };
    assert_eq!(err.to_string(), "src/main.lo:12:5 - Unknown type: Foo");
    assert_eq!(String::from(err), "src/main.lo:12:5 - Unknown type: Foo");
}

#[test]
fn range_shows_start_and_end() {
    let loc = location();
    assert_eq!(RangeDisplay(&loc).to_string(), "12:5-13:40");
    let loc = LoLocation::internal();
    assert_eq!(RangeDisplay(&loc).to_string(), "1:1-1:1");
}

#[test]
fn list_is_separated_by_commas() {
    let none: Vec<String> = vec![];
    assert_eq!(ListDisplay(&none).to_string(), "");
    let one = vec![String::from("i32")];
    assert_eq!(ListDisplay(&one).to_string(), "i32");
    let three = vec![String::from("i32"), String::from(""), String::from("f64")];
    assert_eq!(ListDisplay(&three).to_string(), "i32, , f64");
}

#[test]
fn path_without_leading_dot_is_kept() {
    assert_eq!(resolve_path("std/io.lo", "src/main.lo"), "std/io.lo");
    assert_eq!(resolve_path("/abs/x.lo", "src/main.lo"), "/abs/x.lo");
    assert_eq!(resolve_path("a/../b", "src/main.lo"), "a/../b");
    assert_eq!(resolve_path("", "src/main.lo"), "");
}

#[test]
fn relative_path_is_resolved_against_the_directory() {
    assert_eq!(resolve_path("./utils.lo", "src/main.lo"), "src/utils.lo");
    assert_eq!(resolve_path("./a/./b.lo", "src/main.lo"), "src/a/b.lo");
    assert_eq!(resolve_path("../lib/x.lo", "src/sub/main.lo"), "src/lib/x.lo");
    assert_eq!(resolve_path("../../x.lo", "a/b/c/main.lo"), "a/x.lo");
    assert_eq!(resolve_path("./x.lo", "main.lo"), "x.lo");
    assert_eq!(resolve_path(".hidden", "a/b"), "a/.hidden");
    assert_eq!(resolve_path("./a//b", "/root/file"), "/root/a//b");
    assert_eq!(resolve_path("./x/", "a/b"), "a/x/");
    assert_eq!(resolve_path(".", "a/b"), "a");
    assert_eq!(resolve_path("./\u{e9}t\u{e9}.lo", "\u{fc}ber/main.lo"), "\u{fc}ber/\u{e9}t\u{e9}.lo");
}

#[test]
fn parent_of_nothing_is_kept_until_the_next_parent() {
    assert_eq!(resolve_path("../x.lo", "main.lo"), "../x.lo");
    assert_eq!(resolve_path("..", "main.lo"), "..");
    assert_eq!(resolve_path("../../x.lo", "main.lo"), "x.lo");
    assert_eq!(resolve_path("../../../x.lo", "main.lo"), "../x.lo");
    assert_eq!(resolve_path("../x.lo", "./main.lo"), "../x.lo");
    assert_eq!(resolve_path("../x.lo", "../main.lo"), "x.lo");
}

#[test]
fn args_are_found_by_index() {
    let args = WasiArgs::new(vec![
        Some(String::from("lo")),
        None,
        Some(String::from("main.lo")),
    ]);
    assert_eq!(args.len(), 3);
    assert_eq!(args.get(0), Some("lo"));
    assert_eq!(args.get(1), None);
    assert_eq!(args.get(2), Some("main.lo"));
    assert_eq!(args.get(3), None);
    assert_eq!(args.get(usize::MAX), None);
    let none = WasiArgs::new(vec![]);
    assert_eq!(none.len(), 0);
    assert_eq!(none.get(0), None);
}

#[test]
fn read_step_collects_data() {
    let mut output = vec![1u8];
    let action = read_step(3, ReadEvent::Data(&[2, 3]), &mut output);
    assert_eq!(action, ReadAction::Continue);
    assert_eq!(output, vec![1, 2, 3]);
    let action = read_step(STDIN_FD, ReadEvent::Data(&[4]), &mut output);
    assert_eq!(action, ReadAction::Continue);
    assert_eq!(output, vec![1, 2, 3, 4]);
}

#[test]
fn read_step_finishes_on_an_empty_read() {
    let mut output = vec![1u8];
    assert_eq!(read_step(3, ReadEvent::Data(&[]), &mut output), ReadAction::Finish { close: true });
    assert_eq!(
        read_step(STDIN_FD, ReadEvent::Data(&[]), &mut output),
        ReadAction::Finish { close: false }
    );
    assert_eq!(output, vec![1]);
}

#[test]
fn read_step_takes_try_again_on_stdin_as_the_end() {
    let mut output = vec![7u8];
    let again = wasi::ERRNO_AGAIN.raw();
    let other = wasi::ERRNO_BADF.raw();
    assert_eq!(
        read_step(wasi::FD_STDIN, ReadEvent::Failed { errno: again }, &mut output),
        ReadAction::Finish { close: false }
    );
    assert_eq!(read_step(3, ReadEvent::Failed { errno: again }, &mut output), ReadAction::Fail);
    assert_eq!(
        read_step(wasi::FD_STDIN, ReadEvent::Failed { errno: other }, &mut output),
        ReadAction::Fail
    );
    assert_eq!(read_step(3, ReadEvent::Failed { errno: other }, &mut output), ReadAction::Fail);
    assert_eq!(read_step(3, ReadEvent::Failed { errno: 0 }, &mut output), ReadAction::Fail);
    assert_eq!(output, vec![7]);
}

#[test]
fn system_constants_are_those_of_wasi() {
    assert_eq!(STDIN_FD, wasi::FD_STDIN);
    assert_eq!(ERRNO_AGAIN, wasi::ERRNO_AGAIN.raw());
}

#[test]
fn read_error_names_descriptor_and_error() {
    assert_eq!(
        read_error_message(4, "BADF (error 8)"),
        "Error reading file: fd=4, err=BADF (error 8)\n"
    );
    let err = wasi::ERRNO_BADF;
    assert_eq!(
        read_error_message(4, &err.to_string()),
        format!("Error reading file: fd={}, err={}\n", 4, err)
    );
    assert_eq!(read_error_message(0, ""), "Error reading file: fd=0, err=\n");
}
