use parse_trace::context::TraceContext;
use parse_trace::digits::DigitParser;
use parse_trace::digits::Digits;
use parse_trace::parser::Parser;
use parse_trace::stream::Input;
use parse_trace::toggle::parse_bool;
use parse_trace::toggle::resolve_toggle;
use parse_trace::tracer::trace;
use parse_trace::tracer::Tracer;

#[test]
fn toggle_parsing_accepts_true_and_false_only() {
    assert_eq!(parse_bool(&b"true".to_vec()), Some(true));
    assert_eq!(parse_bool(&b"false".to_vec()), Some(false));
    assert_eq!(parse_bool(&b"banana".to_vec()), None);
    assert_eq!(parse_bool(&b"TRUE".to_vec()), None);
    assert_eq!(parse_bool(&b"".to_vec()), None);
}

#[test]
fn toggle_resolution_combines_build_switches_and_environment() {
    let t = resolve_toggle(true, true, &Some(b"true".to_vec()));
    assert!(t.active);
    assert!(t.render);

    assert!(!resolve_toggle(true, true, &Some(b"false".to_vec())).render);
    assert!(!resolve_toggle(true, true, &Some(b"banana".to_vec())).render);
    assert!(!resolve_toggle(true, true, &None).render);

    let no_support = resolve_toggle(false, true, &Some(b"true".to_vec()));
    assert!(!no_support.active);
    assert!(!no_support.render);

    let no_debug = resolve_toggle(true, false, &Some(b"true".to_vec()));
    assert!(!no_debug.active);
    assert!(!no_debug.render);
}

#[test]
fn inert_toggle_selects_inert_variant_and_renders_nothing() {
    let toggle = resolve_toggle(false, true, &Some(b"true".to_vec()));
    let inner = trace(b"digit".to_vec(), DigitParser::new(), &toggle);
    let p = trace(b"digits".to_vec(), Digits::new(inner), &toggle);
    assert!(matches!(p, Tracer::Inert(_)));

    let mut p = p;
    let mut ctx = TraceContext::new(toggle);
    let mut input = Input::new(b"123abc".to_vec());
    let r = p.parse_next(&mut input, &mut ctx);

    assert_eq!(r, Ok(b"123".to_vec()));
    assert_eq!(input.pos, 3);
    assert!(ctx.log.is_empty());
    assert_eq!(ctx.current(), 0);
}

#[test]
fn active_variant_selected_when_both_switches_on() {
    let toggle = resolve_toggle(true, true, &None);
    let p = trace(b"digit".to_vec(), DigitParser::new(), &toggle);
    assert!(matches!(p, Tracer::Active(_)));
}

#[test]
fn disabled_rendering_still_tracks_depth_but_logs_nothing() {
    let toggle = resolve_toggle(true, true, &Some(b"false".to_vec()));
    let inner = trace(b"digit".to_vec(), DigitParser::new(), &toggle);
    let mut p = trace(b"digits".to_vec(), Digits::new(inner), &toggle);
    let mut ctx = TraceContext::new(toggle);
    let mut input = Input::new(b"123abc".to_vec());

    let r = p.parse_next(&mut input, &mut ctx);

    assert_eq!(r, Ok(b"123".to_vec()));
    assert_eq!(input.pos, 3);
    assert!(ctx.log.is_empty());
    assert_eq!(ctx.current(), 0);
}

#[test]
fn results_unaffected_by_either_toggle_value() {
    let on = resolve_toggle(true, true, &Some(b"true".to_vec()));
    let off = resolve_toggle(false, false, &None);

    let mut p_on = trace(
        b"digits".to_vec(),
        Digits::new(trace(b"digit".to_vec(), DigitParser::new(), &on)),
        &on,
    );
    let mut p_off = trace(
        b"digits".to_vec(),
        Digits::new(trace(b"digit".to_vec(), DigitParser::new(), &off)),
        &off,
    );

    for data in [&b"123abc"[..], &b"abc"[..], &b""[..], &b"007"[..]] {
        let mut ctx_on = TraceContext::new(on);
        let mut ctx_off = TraceContext::new(off);
        let mut in_on = Input::new(data.to_vec());
        let mut in_off = Input::new(data.to_vec());
        let r_on = p_on.parse_next(&mut in_on, &mut ctx_on);
        let r_off = p_off.parse_next(&mut in_off, &mut ctx_off);
        assert_eq!(r_on, r_off);
        assert_eq!(in_on.pos, in_off.pos);
        assert!(ctx_off.log.is_empty());
    }
}
