use std::cell::Cell;
use std::io::Read;

use vcs_toolkit::driver::{
    driver_step, select, Direction, Driver, DriverError, DriverOutput, DriverPayload, DriverStep,
};
use vcs_toolkit::eol::Policy;
use vcs_toolkit::output::{ConversionOutput, Error, Reader};
use vcs_toolkit::pipeline::{
    apply_git_text, apply_worktree_text, finish_to_git, finish_to_worktree, AttributeError,
    BuiltinStages, CrlfRoundTripCheck, NotFound, Pipeline, Plan, ResolvedAttributes, Stage,
};

type Stream = std::io::Cursor<Vec<u8>>;
type Invoke = fn(&Driver, Direction, &str, &[u8], bool) -> Result<DriverOutput<Stream>, DriverError>;

const ID: &str = "2188d1cdee2b93a80084b61af431a49d21bc7cc0";

fn driver(name: &str) -> Driver {
    Driver {
        name: name.to_string(),
        clean: Some(format!("{name} --clean")),
        smudge: Some(format!("{name} --smudge")),
    }
}

/// Puts an arrow before every line on the way into the worktree, takes it away on the way back.
fn run_arrow(
    _driver: &Driver,
    direction: Direction,
    _path: &str,
    content: &[u8],
    allow_stream: bool,
) -> Result<DriverOutput<Stream>, DriverError> {
    let arrow = "\u{27a1}".as_bytes();
    let mut out = Vec::new();
    for line in content.split_inclusive(|b| *b == b'\n') {
        match direction {
            Direction::Clean => out.extend_from_slice(line.strip_prefix(arrow).unwrap_or(line)),
            Direction::Smudge => {
                out.extend_from_slice(arrow);
                out.extend_from_slice(line);
            }
        }
    }
    let changed = out != content;
    let payload = if allow_stream {
        DriverPayload::Stream(std::io::Cursor::new(out))
    } else {
        DriverPayload::Buffer(out)
    };
    Ok(DriverOutput { changed, payload })
}

fn run_declining(_: &Driver, _: Direction, _: &str, _: &[u8], _: bool) -> Result<DriverOutput<Stream>, DriverError> {
    Err(DriverError::Declined)
}

fn run_unavailable(_: &Driver, _: Direction, _: &str, _: &[u8], _: bool) -> Result<DriverOutput<Stream>, DriverError> {
    Err(DriverError::Unavailable)
}

fn run_broken_pipe(_: &Driver, _: Direction, _: &str, _: &[u8], _: bool) -> Result<DriverOutput<Stream>, DriverError> {
    Err(DriverError::Io)
}

fn run_always_streaming(
    _: &Driver,
    _: Direction,
    _: &str,
    content: &[u8],
    _: bool,
) -> Result<DriverOutput<Stream>, DriverError> {
    Ok(DriverOutput { changed: true, payload: DriverPayload::Stream(std::io::Cursor::new(content.to_vec())) })
}

fn run_never_called(_: &Driver, _: Direction, _: &str, _: &[u8], _: bool) -> Result<DriverOutput<Stream>, DriverError> {
    unreachable!("no driver is active")
}

const ALL: BuiltinStages = BuiltinStages { line_endings: true, keywords: true };
const NONE: BuiltinStages = BuiltinStages { line_endings: false, keywords: false };

fn attrs(driver_name: Option<&str>, eol_policy: Option<Policy>, keyword_expand: bool) -> ResolvedAttributes {
    ResolvedAttributes { driver_name: driver_name.map(str::to_string), eol_policy, keyword_expand }
}

fn resolve_to(attrs: ResolvedAttributes) -> impl FnOnce(&str) -> Result<ResolvedAttributes, AttributeError> {
    move |_path: &str| Ok(attrs)
}

fn never_resolve(_path: &str) -> Result<ResolvedAttributes, AttributeError> {
    unreachable!("attributes are not needed")
}

fn never_look_up(_id: &[u8]) -> Result<Vec<u8>, NotFound> {
    unreachable!("no keyword is expanded")
}

fn hex_of_id(id: &[u8]) -> Result<Vec<u8>, NotFound> {
    Ok(id.iter().map(|b| format!("{b:02x}")).collect::<String>().into_bytes())
}

fn drain(reader: Reader<'_, '_, Stream>) -> Vec<u8> {
    let mut buf = Vec::new();
    match reader {
        Reader::Input(mut bytes) => bytes.read_to_end(&mut buf).expect("reading memory cannot fail"),
        Reader::Driver(stream) => stream.read_to_end(&mut buf).expect("reading memory cannot fail"),
    };
    buf
}

#[test]
fn zero_config_returns_the_input_without_resolving_attributes() {
    let pipe = Pipeline::new(vec![], NONE, CrlfRoundTripCheck::Fail, run_never_called as Invoke);
    let input = b"a\r\nb\n$Id$";
    for direction in [Direction::Clean, Direction::Smudge] {
        assert!(!pipe.is_configured(direction));
        let mut out = match direction {
            Direction::Clean => pipe.convert_to_git(input, "a.txt", never_resolve, never_look_up),
            Direction::Smudge => pipe.convert_to_worktree(input, "a.txt", never_resolve, never_look_up),
        }
        .expect("nothing can fail");
        assert!(!out.is_changed());
        assert!(out.as_bytes().is_none());
        assert_eq!(drain(out.as_read().expect("the input as a stream")), input);
    }
}

#[test]
fn a_driver_without_a_program_for_the_direction_is_no_stage() {
    let clean_only = Driver { name: "c".to_string(), clean: Some("c".to_string()), smudge: None };
    let pipe = Pipeline::new(vec![clean_only], NONE, CrlfRoundTripCheck::Fail, run_never_called as Invoke);
    assert!(pipe.is_configured(Direction::Clean));
    assert!(!pipe.is_configured(Direction::Smudge));
    let out = pipe
        .convert_to_worktree(b"abc", "a.txt", never_resolve, never_look_up)
        .expect("nothing can fail");
    assert!(matches!(out, ConversionOutput::Unchanged(b"abc")));
    let plan = pipe.select_stages(&attrs(Some("c"), None, false), Direction::Smudge);
    assert_eq!(plan, Plan { driver: None, eol: None, keywords: false });
    let plan = pipe.select_stages(&attrs(Some("c"), None, false), Direction::Clean);
    assert_eq!(plan, Plan { driver: Some(0), eol: None, keywords: false });
}

#[test]
fn no_match_returns_the_input_without_looking_anything_up() {
    let pipe = Pipeline::new(vec![driver("arrow")], ALL, CrlfRoundTripCheck::Fail, run_never_called as Invoke);
    let input = b"a\r\nb\n$Id$";
    let mut out = pipe
        .convert_to_worktree(input, "other.bin", resolve_to(attrs(Some("unknown"), None, false)), never_look_up)
        .expect("nothing can fail");
    assert!(!out.is_changed());
    assert!(out.as_bytes().is_none());
    assert_eq!(drain(out.as_read().expect("the input as a stream")), input);

    let out = pipe
        .convert_to_git(input, "other.bin", resolve_to(attrs(None, None, false)), never_look_up)
        .expect("nothing can fail");
    assert!(matches!(out, ConversionOutput::Unchanged(bytes) if bytes == input));
}

#[test]
fn attributes_are_resolved_once_for_the_path_given() {
    let pipe = Pipeline::new(vec![driver("arrow")], ALL, CrlfRoundTripCheck::Fail, run_arrow as Invoke);
    let calls = Cell::new(0);
    let out = pipe
        .convert_to_git(
            b"a\r\n",
            "dir/file.txt",
            |path: &str| -> Result<ResolvedAttributes, AttributeError> {
                calls.set(calls.get() + 1);
                assert_eq!(path, "dir/file.txt");
                Ok(attrs(None, Some(Policy::Normalize), false))
            },
            never_look_up,
        )
        .expect("round-trips");
    assert_eq!(calls.get(), 1);
    assert_eq!(out.as_bytes(), Some(&b"a\n"[..]));
}

#[test]
fn a_streaming_driver_alone_streams_in_both_directions() {
    let pipe = Pipeline::new(vec![driver("arrow")], ALL, CrlfRoundTripCheck::Fail, run_arrow as Invoke);
    let mut out = pipe
        .convert_to_worktree(b"a\nb\n", "a.txt", resolve_to(attrs(Some("arrow"), None, false)), never_look_up)
        .expect("the driver runs");
    assert!(out.is_changed());
    assert!(out.as_bytes().is_none());
    assert_eq!(
        drain(out.as_read().expect("a driver alone can stream")),
        "\u{27a1}a\n\u{27a1}b\n".as_bytes()
    );

    let mut out = pipe
        .convert_to_git(
            "\u{27a1}a\n\u{27a1}b\n".as_bytes(),
            "a.txt",
            resolve_to(attrs(Some("arrow"), None, false)),
            never_look_up,
        )
        .expect("the driver runs");
    assert!(matches!(out, ConversionOutput::Streamed(_)));
    assert_eq!(drain(out.as_read().expect("a driver alone can stream")), b"a\nb\n");
}

#[test]
fn a_stream_can_be_read_in_pieces() {
    let pipe = Pipeline::new(vec![driver("arrow")], NONE, CrlfRoundTripCheck::Fail, run_always_streaming as Invoke);
    let mut out = pipe
        .convert_to_git(b"abcdef", "a.txt", resolve_to(attrs(Some("arrow"), None, false)), never_look_up)
        .expect("the driver runs");
    let mut first = [0u8; 2];
    match out.as_read().expect("stream") {
        Reader::Driver(stream) => stream.read_exact(&mut first).expect("two bytes"),
        Reader::Input(_) => unreachable!("the driver altered the content"),
    }
    assert_eq!(&first, b"ab");
    assert_eq!(drain(out.as_read().expect("stream")), b"cdef");
}

#[test]
fn a_builtin_stage_forces_a_buffer() {
    let pipe = Pipeline::new(vec![driver("arrow")], ALL, CrlfRoundTripCheck::Fail, run_arrow as Invoke);
    let mut out = pipe
        .convert_to_worktree(
            b"a\nb\n",
            "a.txt",
            resolve_to(attrs(Some("arrow"), Some(Policy::Normalize), false)),
            never_look_up,
        )
        .expect("the stages run");
    assert!(out.is_changed());
    assert!(out.as_read().is_none());
    assert_eq!(out.as_bytes(), Some("\u{27a1}a\r\n\u{27a1}b\r\n".as_bytes()));

    let mut out = pipe
        .convert_to_git(b"a\r\nb\r\n", "a.txt", resolve_to(attrs(None, Some(Policy::Normalize), false)), never_look_up)
        .expect("round-trips");
    assert!(out.as_read().is_none());
    assert_eq!(out.as_bytes(), Some(&b"a\nb\n"[..]));
}

#[test]
fn a_stream_where_a_buffer_was_asked_for_aborts() {
    let pipe = Pipeline::new(vec![driver("arrow")], ALL, CrlfRoundTripCheck::Fail, run_always_streaming as Invoke);
    let res = pipe.convert_to_git(
        b"a\r\n",
        "a.txt",
        resolve_to(attrs(Some("arrow"), Some(Policy::Normalize), false)),
        never_look_up,
    );
    assert_eq!(res.err(), Some(Error::DriverIo));
}

#[test]
fn all_stages_convert_to_the_worktree_in_reverse_order() {
    let pipe = Pipeline::new(vec![driver("arrow")], ALL, CrlfRoundTripCheck::Fail, run_arrow as Invoke);
    let mut out = pipe
        .convert_to_worktree(
            b"a\nb\n$Id$",
            "any.txt",
            resolve_to(attrs(Some("arrow"), Some(Policy::Normalize), true)),
            hex_of_id,
        )
        .expect("the stages run");
    assert!(out.is_changed());
    assert!(out.as_read().is_none());
    assert_eq!(
        out.as_bytes(),
        Some(format!("\u{27a1}a\r\n\u{27a1}b\r\n\u{27a1}$Id: {ID}$").as_bytes())
    );
}

#[test]
fn the_lookup_gets_the_blob_id_of_the_content() {
    let pipe = Pipeline::new(vec![], ALL, CrlfRoundTripCheck::Fail, run_never_called as Invoke);
    let seen = Cell::new(Vec::new());
    let out = pipe
        .convert_to_worktree(
            b"a\nb\n$Id$",
            "any.txt",
            resolve_to(attrs(None, None, true)),
            |id: &[u8]| -> Result<Vec<u8>, NotFound> {
                seen.set(id.to_vec());
                Ok(b"found".to_vec())
            },
        )
        .expect("the lookup succeeds");
    assert_eq!(hex_of_id(&seen.take()).unwrap(), ID.as_bytes());
    assert_eq!(out.as_bytes(), Some(&b"a\nb\n$Id: found$"[..]));

    let empty_blob = Cell::new(Vec::new());
    pipe.convert_to_worktree(
        b"",
        "any.txt",
        resolve_to(attrs(None, None, true)),
        |id: &[u8]| -> Result<Vec<u8>, NotFound> {
            empty_blob.set(id.to_vec());
            Ok(Vec::new())
        },
    )
    .expect("the lookup succeeds");
    assert_eq!(
        hex_of_id(&empty_blob.take()).unwrap(),
        b"e69de29bb2d1d6434b8b29ae775ad8c2e48c5391"
    );
}

#[test]
fn a_failed_lookup_aborts_keyword_expansion() {
    let pipe = Pipeline::new(vec![], ALL, CrlfRoundTripCheck::Fail, run_never_called as Invoke);
    let res = pipe.convert_to_worktree(
        b"$Id$",
        "any.txt",
        resolve_to(attrs(None, None, true)),
        |_id: &[u8]| -> Result<Vec<u8>, NotFound> { Err(NotFound) },
    );
    assert_eq!(res.err(), Some(Error::ObjectLookupFailed));
}

#[test]
fn keywords_are_not_expanded_unless_the_stage_is_configured() {
    let pipe = Pipeline::new(
        vec![],
        BuiltinStages { line_endings: true, keywords: false },
        CrlfRoundTripCheck::Fail,
        run_never_called as Invoke,
    );
    let out = pipe
        .convert_to_worktree(b"$Id$\n", "any.txt", resolve_to(attrs(None, Some(Policy::Normalize), true)), never_look_up)
        .expect("no lookup is made");
    assert_eq!(out.as_bytes(), Some(&b"$Id$\r\n"[..]));
}

#[test]
fn mixed_line_endings_abort_with_the_path_when_checked() {
    let pipe = Pipeline::new(vec![], ALL, CrlfRoundTripCheck::Fail, run_never_called as Invoke);
    let res = pipe.convert_to_git(
        b"a\r\nb\n",
        "dir/mixed.txt",
        resolve_to(attrs(None, Some(Policy::Normalize), false)),
        never_look_up,
    );
    assert_eq!(res.err(), Some(Error::RoundTripMismatch { path: "dir/mixed.txt".to_string() }));
}

#[test]
fn mixed_line_endings_are_normalized_when_not_checked() {
    let pipe = Pipeline::new(vec![], ALL, CrlfRoundTripCheck::Skip, run_never_called as Invoke);
    let out = pipe
        .convert_to_git(
            b"a\r\nb\n",
            "dir/mixed.txt",
            resolve_to(attrs(None, Some(Policy::Normalize), false)),
            never_look_up,
        )
        .expect("the check is skipped");
    assert!(out.is_changed());
    assert_eq!(out.as_bytes(), Some(&b"a\nb\n"[..]));
}

#[test]
fn uniform_crlf_survives_clean_then_smudge() {
    let pipe = Pipeline::new(vec![], ALL, CrlfRoundTripCheck::Fail, run_never_called as Invoke);
    let original = b"a\r\nb\r\n\r\nc";
    let stored = pipe
        .convert_to_git(original, "a.txt", resolve_to(attrs(None, Some(Policy::Normalize), false)), never_look_up)
        .expect("round-trips");
    let stored = stored.as_bytes().expect("normalization altered the content").to_vec();
    assert_eq!(stored, b"a\nb\n\nc");
    let restored = pipe
        .convert_to_worktree(&stored, "a.txt", resolve_to(attrs(None, Some(Policy::Normalize), false)), never_look_up)
        .expect("nothing can fail");
    assert_eq!(restored.as_bytes(), Some(&original[..]));
}

#[test]
fn an_active_stage_without_effect_returns_the_input() {
    let pipe = Pipeline::new(vec![driver("arrow")], ALL, CrlfRoundTripCheck::Skip, run_declining as Invoke);
    let input = b"no line ending, no keyword";
    let mut out = pipe
        .convert_to_git(input, "a.txt", resolve_to(attrs(Some("arrow"), Some(Policy::Normalize), true)), never_look_up)
        .expect("nothing can fail");
    assert!(!out.is_changed());
    assert!(out.as_bytes().is_none());
    assert!(matches!(out.as_read(), Some(Reader::Input(bytes)) if std::ptr::eq(bytes, &input[..])));
}

#[test]
fn a_declining_driver_is_passed_over() {
    let pipe = Pipeline::new(vec![driver("arrow")], ALL, CrlfRoundTripCheck::Fail, run_declining as Invoke);
    let out = pipe
        .convert_to_git(
            b"a\r\n$Id: x$",
            "a.txt",
            resolve_to(attrs(Some("arrow"), Some(Policy::Normalize), true)),
            never_look_up,
        )
        .expect("declining is no error");
    assert!(out.is_changed());
    assert_eq!(out.as_bytes(), Some(&b"a\n$Id$"[..]));

    let out = pipe
        .convert_to_worktree(b"abc", "a.txt", resolve_to(attrs(Some("arrow"), None, false)), never_look_up)
        .expect("declining is no error");
    assert!(matches!(out, ConversionOutput::Unchanged(b"abc")));
}

#[test]
fn a_driver_that_cannot_start_aborts() {
    let pipe = Pipeline::new(vec![driver("arrow")], ALL, CrlfRoundTripCheck::Fail, run_unavailable as Invoke);
    let res = pipe.convert_to_git(b"abc", "a.txt", resolve_to(attrs(Some("arrow"), None, false)), never_look_up);
    assert_eq!(res.err(), Some(Error::DriverUnavailable));
    let res = pipe.convert_to_worktree(b"abc", "a.txt", resolve_to(attrs(Some("arrow"), None, false)), never_look_up);
    assert_eq!(res.err(), Some(Error::DriverUnavailable));
}

#[test]
fn a_broken_pipe_aborts() {
    let pipe = Pipeline::new(vec![driver("arrow")], ALL, CrlfRoundTripCheck::Fail, run_broken_pipe as Invoke);
    let res = pipe.convert_to_git(b"abc", "a.txt", resolve_to(attrs(Some("arrow"), None, false)), never_look_up);
    assert_eq!(res.err(), Some(Error::DriverIo));
    let res = pipe.convert_to_worktree(b"abc", "a.txt", resolve_to(attrs(Some("arrow"), None, false)), never_look_up);
    assert_eq!(res.err(), Some(Error::DriverIo));
}

#[test]
fn failing_attributes_abort() {
    let pipe = Pipeline::new(vec![driver("arrow")], ALL, CrlfRoundTripCheck::Fail, run_never_called as Invoke);
    let fail = |_path: &str| -> Result<ResolvedAttributes, AttributeError> { Err(AttributeError) };
    assert_eq!(
        pipe.convert_to_git(b"abc", "a.txt", fail, never_look_up).err(),
        Some(Error::AttributeResolutionFailed)
    );
    assert_eq!(
        pipe.convert_to_worktree(b"abc", "a.txt", fail, never_look_up).err(),
        Some(Error::AttributeResolutionFailed)
    );
}

#[test]
fn the_first_driver_of_a_name_is_selected() {
    let first = Driver { name: "x".to_string(), clean: None, smudge: Some("first".to_string()) };
    let second = Driver { name: "x".to_string(), clean: Some("second".to_string()), smudge: Some("second".to_string()) };
    let drivers = vec![driver("other"), first, second];
    assert_eq!(select(&drivers, &"x".to_string(), Direction::Smudge), Some(1));
    assert_eq!(select(&drivers, &"x".to_string(), Direction::Clean), Some(2));
    assert_eq!(select(&drivers, &"other".to_string(), Direction::Clean), Some(0));
    assert_eq!(select(&drivers, &"X".to_string(), Direction::Clean), None);
    assert_eq!(select(&Vec::new(), &"x".to_string(), Direction::Clean), None);
    assert!(drivers[1].has_program(Direction::Smudge));
    assert!(!drivers[1].has_program(Direction::Clean));
}

#[test]
fn the_driver_gets_its_configuration_and_the_path() {
    fn checking(driver: &Driver, direction: Direction, path: &str, content: &[u8], allow_stream: bool) -> Result<DriverOutput<Stream>, DriverError> {
        assert_eq!(driver.name, "second");
        assert_eq!(direction, Direction::Clean);
        assert_eq!(path, "dir/a.txt");
        assert_eq!(content, b"abc");
        assert!(allow_stream);
        Ok(DriverOutput { changed: true, payload: DriverPayload::Buffer(b"xyz".to_vec()) })
    }
    let pipe = Pipeline::new(vec![driver("first"), driver("second")], ALL, CrlfRoundTripCheck::Fail, checking as Invoke);
    let mut out = pipe
        .convert_to_git(b"abc", "dir/a.txt", resolve_to(attrs(Some("second"), None, false)), never_look_up)
        .expect("the driver runs");
    assert!(out.as_read().is_none(), "a driver that cannot stream forces a buffer");
    assert_eq!(out.as_bytes(), Some(&b"xyz"[..]));
}

#[test]
fn stages_are_ordered_by_direction() {
    let plan = Plan { driver: Some(3), eol: Some(Policy::NormalizeAndTrim), keywords: true };
    assert_eq!(
        plan.ordered_stages(Direction::Clean),
        vec![Stage::Driver(3), Stage::LineEndings(Policy::NormalizeAndTrim), Stage::Keywords]
    );
    assert_eq!(
        plan.ordered_stages(Direction::Smudge),
        vec![Stage::Keywords, Stage::LineEndings(Policy::NormalizeAndTrim), Stage::Driver(3)]
    );
    assert!(plan.buffers());
    assert!(!plan.can_stream());
    assert!(!plan.no_stage());

    let driver_only = Plan { driver: Some(0), eol: None, keywords: false };
    assert_eq!(driver_only.ordered_stages(Direction::Smudge), vec![Stage::Driver(0)]);
    assert!(driver_only.can_stream());

    let nothing = Plan { driver: None, eol: None, keywords: false };
    assert!(nothing.no_stage());
    assert!(!nothing.can_stream());
    assert!(nothing.ordered_stages(Direction::Clean).is_empty());
}

#[test]
fn the_answer_of_a_driver_is_classified() {
    let buffer = |changed| Ok(DriverOutput::<Stream> { changed, payload: DriverPayload::Buffer(b"x".to_vec()) });
    let stream = |changed| {
        Ok(DriverOutput { changed, payload: DriverPayload::Stream(std::io::Cursor::new(b"x".to_vec())) })
    };
    assert!(matches!(driver_step(buffer(true), b"in", false), DriverStep::Buffer(bytes) if bytes == b"x"));
    assert!(matches!(driver_step(buffer(true), b"x", false), DriverStep::NoEffect));
    assert!(matches!(driver_step(buffer(false), b"in", false), DriverStep::NoEffect));
    assert!(matches!(driver_step(stream(true), b"in", true), DriverStep::Stream(_)));
    assert!(matches!(driver_step(stream(true), b"x", true), DriverStep::Stream(_)));
    assert!(matches!(driver_step(stream(true), b"in", false), DriverStep::Io));
    assert!(matches!(driver_step(stream(false), b"in", false), DriverStep::NoEffect));
    assert!(matches!(driver_step::<Stream>(Err(DriverError::Declined), b"in", true), DriverStep::NoEffect));
    assert!(matches!(driver_step::<Stream>(Err(DriverError::Unavailable), b"in", true), DriverStep::Unavailable));
    assert!(matches!(driver_step::<Stream>(Err(DriverError::Io), b"in", true), DriverStep::Io));
}

#[test]
fn text_stages_report_whether_they_altered_anything() {
    let both = Plan { driver: None, eol: Some(Policy::Normalize), keywords: true };
    assert_eq!(
        apply_git_text(CrlfRoundTripCheck::Fail, both, "p", b"a\r\n$Id: x$"),
        Ok(Some(b"a\n$Id$".to_vec()))
    );
    assert_eq!(apply_git_text(CrlfRoundTripCheck::Fail, both, "p", b"a\r\n"), Ok(Some(b"a\n".to_vec())));
    assert_eq!(apply_git_text(CrlfRoundTripCheck::Skip, both, "p", b"$Id: x$"), Ok(Some(b"$Id$".to_vec())));
    assert_eq!(apply_git_text(CrlfRoundTripCheck::Fail, both, "p", b"abc"), Ok(None));
    assert_eq!(
        apply_git_text(CrlfRoundTripCheck::Fail, both, "p", b"a\n"),
        Err(Error::RoundTripMismatch { path: "p".to_string() })
    );
    let keywords_only = Plan { driver: None, eol: None, keywords: true };
    assert_eq!(apply_git_text(CrlfRoundTripCheck::Fail, keywords_only, "p", b"a\n"), Ok(None));

    assert_eq!(apply_worktree_text(both, b"a\n$Id$", b"7"), Some(b"a\r\n$Id: 7$".to_vec()));
    assert_eq!(apply_worktree_text(both, b"$Id$", b"7"), Some(b"$Id: 7$".to_vec()));
    assert_eq!(apply_worktree_text(both, b"a\n", b"7"), Some(b"a\r\n".to_vec()));
    assert_eq!(apply_worktree_text(both, b"abc", b"7"), None);
    assert_eq!(apply_worktree_text(keywords_only, b"a\n", b"7"), None);
}

#[test]
fn a_conversion_is_completed_from_the_driver_step() {
    let eol = Plan { driver: Some(0), eol: Some(Policy::Normalize), keywords: false };
    let driver_only = Plan { driver: Some(0), eol: None, keywords: false };
    let input = b"in\r\n";

    let out = finish_to_git::<Stream>(CrlfRoundTripCheck::Fail, eol, "p", input, DriverStep::Buffer(b"x\r\ny".to_vec()));
    assert_eq!(out.expect("round-trips").as_bytes(), Some(&b"x\ny"[..]));
    let out = finish_to_git::<Stream>(CrlfRoundTripCheck::Fail, eol, "p", input, DriverStep::Buffer(b"xy".to_vec()));
    assert_eq!(out.expect("round-trips").as_bytes(), Some(&b"xy"[..]));
    let out = finish_to_git::<Stream>(CrlfRoundTripCheck::Fail, eol, "p", input, DriverStep::NoEffect);
    assert_eq!(out.expect("round-trips").as_bytes(), Some(&b"in\n"[..]));
    let out = finish_to_git::<Stream>(CrlfRoundTripCheck::Fail, driver_only, "p", input, DriverStep::NoEffect);
    assert!(matches!(out, Ok(ConversionOutput::Unchanged(b"in\r\n"))));
    let out = finish_to_git(CrlfRoundTripCheck::Fail, driver_only, "p", input, DriverStep::Stream(7u8));
    assert!(matches!(out, Ok(ConversionOutput::Streamed(7u8))));
    let out = finish_to_git(CrlfRoundTripCheck::Fail, eol, "p", input, DriverStep::Stream(7u8));
    assert_eq!(out.err(), Some(Error::DriverIo));

    let out = finish_to_worktree::<Stream>(eol, input, Some(b"text".to_vec()), DriverStep::NoEffect);
    assert_eq!(out.expect("no failure").as_bytes(), Some(&b"text"[..]));
    let out = finish_to_worktree::<Stream>(eol, input, Some(b"text".to_vec()), DriverStep::Buffer(b"driven".to_vec()));
    assert_eq!(out.expect("no failure").as_bytes(), Some(&b"driven"[..]));
    let out = finish_to_worktree::<Stream>(eol, input, None, DriverStep::Inactive);
    assert!(matches!(out, Ok(ConversionOutput::Unchanged(b"in\r\n"))));
    let out = finish_to_worktree::<Stream>(eol, input, None, DriverStep::Unavailable);
    assert_eq!(out.err(), Some(Error::DriverUnavailable));
}

#[test]
fn a_pipeline_keeps_its_configuration() {
    let pipe = Pipeline::new(vec![driver("a"), driver("b")], ALL, CrlfRoundTripCheck::Skip, run_never_called as Invoke);
    assert_eq!(pipe.drivers(), &vec![driver("a"), driver("b")]);
    assert_eq!(pipe.builtin(), ALL);
    assert_eq!(pipe.round_trip_check(), CrlfRoundTripCheck::Skip);
    assert!(pipe.is_configured(Direction::Clean));
    assert!(pipe.is_configured(Direction::Smudge));
    let builtin_only = Pipeline::new(
        vec![],
        BuiltinStages { line_endings: false, keywords: true },
        CrlfRoundTripCheck::Fail,
        run_never_called as Invoke,
    );
    assert!(builtin_only.is_configured(Direction::Clean));
    assert_eq!(
        builtin_only.select_stages(&attrs(Some("a"), Some(Policy::Normalize), true), Direction::Clean),
        Plan { driver: None, eol: None, keywords: true }
    );
}

#[test]
fn a_driver_that_hands_back_its_input_has_no_effect() {
    fn echo(_: &Driver, _: Direction, _: &str, content: &[u8], _: bool) -> Result<DriverOutput<Stream>, DriverError> {
        Ok(DriverOutput { changed: true, payload: DriverPayload::Buffer(content.to_vec()) })
    }
    let pipe = Pipeline::new(vec![driver("echo")], ALL, CrlfRoundTripCheck::Fail, echo as Invoke);
    let input = b"abc";
    let mut out = pipe
        .convert_to_git(input, "a.txt", resolve_to(attrs(Some("echo"), None, false)), never_look_up)
        .expect("the driver runs");
    assert!(!out.is_changed());
    assert!(matches!(out.as_read(), Some(Reader::Input(bytes)) if std::ptr::eq(bytes, &input[..])));
}
