use pycavy::config::{get_phase, Arch, Config, MeasurementMode, OptConfig, OptFlags, Phase};
use pycavy::context::{Context, SrcId};
use pycavy::diag::{Diagnostic, ErrorBuf, Span};

fn config() -> Config {
    Config {
        debug: false,
        arch: Arch {
            qb_count: None,
            qram_size: 0,
            meas_mode: MeasurementMode::Nondemolition,
            feedback: false,
            recursion: false,
        },
        opt: OptConfig { level: 3, flags: OptFlags::default() },
        phase_config: get_phase(None),
    }
}

fn at(src: usize, line: usize, col: usize) -> Span {
    Span { src: SrcId(src), line, col }
}

#[test]
fn fresh_context_holds_no_source() {
    let ctx = Context::new(&config());
    assert_eq!(ctx.src_count(), 0);
    assert_eq!(ctx.conf(), &config());
    assert_eq!(ctx.last_phase(), Phase::CodeGen);
    assert_eq!(ctx.code(SrcId(0)), None);
    assert_eq!(ctx.origin(SrcId(0)), "<unknown>");
}

#[test]
fn inputs_are_numbered_in_order() {
    let mut ctx = Context::new(&config());
    assert_eq!(ctx.insert_input("let x = ?true;"), SrcId(0));
    assert_eq!(ctx.insert_input("let y = ?false;"), SrcId(1));
    assert_eq!(ctx.src_count(), 2);
    assert_eq!(ctx.code(SrcId(0)), Some("let x = ?true;"));
    assert_eq!(ctx.code(SrcId(1)), Some("let y = ?false;"));
    assert_eq!(ctx.code(SrcId(2)), None);
    assert_eq!(ctx.origin(SrcId(0)), "<input>");
    assert_eq!(ctx.origin(SrcId(1)), "<input>");
    assert_eq!(ctx.origin(SrcId(2)), "<unknown>");
    assert_eq!(ctx.conf(), &config());
}

#[test]
fn diagnostic_renders_as_one_line() {
    let mut ctx = Context::new(&config());
    let id = ctx.insert_input("fn main() { let x = ; }");
    let d = Diagnostic::new(Span { src: id, line: 1, col: 21 }, "expected an expression");
    assert_eq!(d.span, at(0, 1, 21));
    assert_eq!(d.message, "expected an expression");
    assert_eq!(d.fmt_with(&ctx), "<input>:1:21: error: expected an expression\n");
}

#[test]
fn diagnostic_of_an_unknown_source() {
    let ctx = Context::new(&config());
    let d = Diagnostic::new(at(3, 120, 7), "unbalanced brace");
    assert_eq!(d.fmt_with(&ctx), "<unknown>:120:7: error: unbalanced brace\n");
}

#[test]
fn empty_buffer_renders_empty() {
    let ctx = Context::new(&config());
    let errs = ErrorBuf::new();
    assert!(errs.is_empty());
    assert_eq!(errs.len(), 0);
    assert_eq!(errs.fmt_with(&ctx), "");
}

#[test]
fn buffer_renders_every_error_in_order() {
    let mut ctx = Context::new(&config());
    ctx.insert_input("...");
    let mut errs = ErrorBuf::new();
    errs.push(Diagnostic::new(at(0, 2, 5), "first"));
    errs.push(Diagnostic::new(at(0, 1, 1), "second"));
    errs.push(Diagnostic::new(at(1, 10, 10), "third"));
    assert!(!errs.is_empty());
    assert_eq!(errs.len(), 3);
    assert_eq!(errs.get(1), &Diagnostic::new(at(0, 1, 1), "second"));
    assert_eq!(
        errs.fmt_with(&ctx),
        "<input>:2:5: error: first\n<input>:1:1: error: second\n<unknown>:10:10: error: third\n"
    );
}

#[test]
fn append_keeps_both_orders() {
    let mut ctx = Context::new(&config());
    ctx.insert_input("...");
    let mut errs = ErrorBuf::new();
    errs.push(Diagnostic::new(at(0, 1, 1), "a"));
    let mut more = ErrorBuf::new();
    more.push(Diagnostic::new(at(0, 2, 2), "b"));
    more.push(Diagnostic::new(at(0, 3, 3), "c"));
    errs.append(more);
    assert_eq!(errs.len(), 3);
    assert_eq!(errs.get(0).message, "a");
    assert_eq!(errs.get(1).message, "b");
    assert_eq!(errs.get(2).message, "c");
    errs.append(ErrorBuf::new());
    assert_eq!(errs.len(), 3);
    assert_eq!(
        errs.fmt_with(&ctx),
        "<input>:1:1: error: a\n<input>:2:2: error: b\n<input>:3:3: error: c\n"
    );
}
