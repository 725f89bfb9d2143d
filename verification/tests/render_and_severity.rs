use parse_trace::context::TraceContext;
use parse_trace::digits::DigitParser;
use parse_trace::error::ErrMode;
use parse_trace::event::Phase;
use parse_trace::event::TraceEvent;
use parse_trace::parser::Parser;
use parse_trace::render::render;
use parse_trace::severity::Severity;
use parse_trace::stream::Input;
use parse_trace::toggle::resolve_toggle;
use parse_trace::tracer::trace_result;
use parse_trace::tracer::TraceEmpty;

#[test]
fn classification_is_deterministic_over_the_four_shapes() {
    let ok: Result<Vec<u8>, ErrMode> = Ok(b"x".to_vec());
    let back: Result<Vec<u8>, ErrMode> = Err(ErrMode::Backtrack { pos: 3 });
    let cut: Result<Vec<u8>, ErrMode> = Err(ErrMode::Cut { pos: 3 });
    let inc: Result<Vec<u8>, ErrMode> = Err(ErrMode::Incomplete);

    for _ in 0..2 {
        assert_eq!(Severity::with_result(&ok), Severity::Success);
        assert_eq!(Severity::with_result(&back), Severity::RecoverableFailure);
        assert_eq!(Severity::with_result(&cut), Severity::UnrecoverableFailure);
        assert_eq!(Severity::with_result(&inc), Severity::Incomplete);
    }

    let ok2: Result<Vec<u8>, ErrMode> = Ok(b"y".to_vec());
    assert_eq!(Severity::with_result(&ok), Severity::with_result(&ok2));
}

#[test]
fn render_enter_line_shows_indent_name_and_preview() {
    let ev = TraceEvent {
        depth: 2,
        name: b"x".to_vec(),
        phase: Phase::Enter,
        severity: None,
        preview: Some(b"ab".to_vec()),
        out_preview: None,
    };
    assert_eq!(render(&ev), b"    > x | ab".to_vec());
}

#[test]
fn render_exit_line_shows_severity_value_and_rest() {
    let ev = TraceEvent {
        depth: 0,
        name: b"digit".to_vec(),
        phase: Phase::Exit,
        severity: Some(Severity::Success),
        preview: Some(b"bc".to_vec()),
        out_preview: Some(b"1".to_vec()),
    };
    assert_eq!(render(&ev), b"< digit | success | 1 | bc".to_vec());
}

#[test]
fn render_failure_lines_show_their_labels() {
    for (sev, label) in [
        (Severity::RecoverableFailure, &b"backtrack"[..]),
        (Severity::UnrecoverableFailure, &b"cut"[..]),
        (Severity::Incomplete, &b"incomplete"[..]),
    ] {
        let ev = TraceEvent {
            depth: 1,
            name: b"p".to_vec(),
            phase: Phase::Exit,
            severity: Some(sev),
            preview: None,
            out_preview: None,
        };
        let mut expected = b"  < p | ".to_vec();
        expected.extend_from_slice(label);
        assert_eq!(render(&ev), expected);
    }
}

#[test]
fn preview_is_bounded_and_masks_unprintable_bytes() {
    let mut data = Vec::new();
    data.push(0u8);
    data.push(10u8);
    data.extend_from_slice(b"abc");
    data.push(200u8);
    let input = Input::new(data);
    assert_eq!(input.preview(), b"..abc.".to_vec());

    let long = Input::new(b"abcdefghijklmnopqrstuvwxyz".to_vec());
    assert_eq!(long.preview(), b"abcdefghijklmnop".to_vec());
}

#[test]
fn trace_result_records_one_exit_event_when_rendering() {
    let toggle = resolve_toggle(true, true, &Some(b"true".to_vec()));
    let mut ctx = TraceContext::new(toggle);
    let res: Result<Vec<u8>, ErrMode> = Err(ErrMode::Cut { pos: 7 });

    trace_result(&b"branch".to_vec(), &res, &mut ctx);

    assert_eq!(ctx.log.len(), 1);
    assert_eq!(ctx.log[0].depth, 0);
    assert_eq!(ctx.log[0].name, b"branch".to_vec());
    assert_eq!(ctx.log[0].phase, Phase::Exit);
    assert_eq!(ctx.log[0].severity, Some(Severity::UnrecoverableFailure));
    assert_eq!(ctx.log[0].preview, None);
    assert_eq!(ctx.current(), 0);
}

#[test]
fn trace_result_records_nothing_when_not_rendering() {
    let toggle = resolve_toggle(true, true, &None);
    let mut ctx = TraceContext::new(toggle);
    let res: Result<Vec<u8>, ErrMode> = Ok(b"v".to_vec());

    trace_result(&b"branch".to_vec(), &res, &mut ctx);

    assert!(ctx.log.is_empty());
}

#[test]
fn trace_empty_passes_through_without_touching_the_context() {
    let toggle = resolve_toggle(true, true, &Some(b"true".to_vec()));
    let mut ctx = TraceContext::new(toggle);
    let mut p = TraceEmpty::new(DigitParser::new(), b"digit".to_vec());
    let mut input = Input::new(b"7b".to_vec());

    let r = p.parse_next(&mut input, &mut ctx);

    assert_eq!(r, Ok(b"7".to_vec()));
    assert_eq!(input.pos, 1);
    assert!(ctx.log.is_empty());
    assert_eq!(ctx.current(), 0);
}

#[test]
fn incomplete_and_cut_outcomes_keep_their_positions() {
    let cut = ErrMode::Cut { pos: 5 };
    match cut {
        ErrMode::Cut { pos } => assert_eq!(pos, 5),
        _ => unreachable!(),
    }
    assert_eq!(ErrMode::Incomplete, ErrMode::Incomplete);
    assert_ne!(
        ErrMode::Backtrack { pos: 1 },
        ErrMode::Backtrack { pos: 2 }
    );
}
