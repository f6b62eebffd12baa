use fmt_ext::debug::CustomDebug;
use fmt_ext::display::CustomDisplay;
use fmt_ext::formatters::BareSliceDebug;
use fmt_ext::formatters::ExternValue;
use fmt_ext::formatters::ExternValueDebug;
use fmt_ext::formatters::ExternValueDisplay;
use fmt_ext::formatters::SliceWithLenDebug;
use fmt_ext::sink::Sink;
use fmt_ext::sink::SinkError;
use fmt_ext::Carrier;
use fmt_ext::DebugExt;
use fmt_ext::DisplayExt;

#[test]
fn slice_scenario() {
    let numbers: &[u64] = &[0, 1, 2, 3];
    let carrier: Carrier<'_, [u64], SliceWithLenDebug> = numbers.debug();
    let mut sink = Sink::new();
    let r = carrier.fmt_debug(&mut sink);
    assert_eq!(r, Ok(()));
    assert_eq!(sink.as_str(), "Slice { len: 4, items: [0, 1, 2, 3] }");
}

#[test]
fn extern_value_scenario() {
    let foo = ExternValue { value: 42 };
    let carrier: Carrier<'_, ExternValue, ExternValueDisplay> = foo.display();
    let mut sink = Sink::new();
    let r = carrier.fmt_display(&mut sink);
    assert_eq!(r, Ok(()));
    assert_eq!(sink.as_str(), "Extern type has a value - 42!");
}

#[test]
fn carrier_matches_direct_debug() {
    let numbers: &[u64] = &[5, 17, 900];
    let carrier: Carrier<'_, [u64], SliceWithLenDebug> = Carrier::new(numbers);
    let mut via_carrier = Sink::new();
    let mut direct = Sink::new();
    assert_eq!(carrier.fmt_debug(&mut via_carrier), Ok(()));
    assert_eq!(
        <SliceWithLenDebug as CustomDebug>::fmt_target(numbers, &mut direct),
        Ok(())
    );
    assert_eq!(via_carrier.as_str().as_bytes(), direct.as_str().as_bytes());
}

#[test]
fn carrier_matches_direct_display() {
    let v = ExternValue { value: 7 };
    let carrier: Carrier<'_, ExternValue, ExternValueDisplay> = Carrier::new(&v);
    let mut via_carrier = Sink::new();
    let mut direct = Sink::new();
    assert_eq!(carrier.fmt_display(&mut via_carrier), Ok(()));
    assert_eq!(
        <ExternValueDisplay as CustomDisplay>::fmt_target(&v, &mut direct),
        Ok(())
    );
    assert_eq!(via_carrier.as_str().as_bytes(), direct.as_str().as_bytes());
}

#[test]
fn kind_isolation() {
    let v = ExternValue { value: 42 };

    let debug_carrier: Carrier<'_, ExternValue, ExternValueDebug> = v.debug();
    let mut debug_sink = Sink::new();
    assert_eq!(debug_carrier.fmt_debug(&mut debug_sink), Ok(()));
    assert_eq!(debug_sink.as_str(), "ExternValue(42)");

    let display_carrier: Carrier<'_, ExternValue, ExternValueDisplay> = v.display();
    let mut display_sink = Sink::new();
    assert_eq!(display_carrier.fmt_display(&mut display_sink), Ok(()));
    assert_eq!(display_sink.as_str(), "Extern type has a value - 42!");

    assert_ne!(debug_sink.as_str(), display_sink.as_str());
}

#[test]
fn explicit_selection_between_two_debug_formatters() {
    let numbers: &[u64] = &[0, 1, 2, 3];

    let with_len: Carrier<'_, [u64], SliceWithLenDebug> = numbers.debug();
    let mut first = Sink::new();
    assert_eq!(with_len.fmt_debug(&mut first), Ok(()));
    assert_eq!(first.as_str(), "Slice { len: 4, items: [0, 1, 2, 3] }");

    let bare: Carrier<'_, [u64], BareSliceDebug> = numbers.debug();
    let mut second = Sink::new();
    assert_eq!(bare.fmt_debug(&mut second), Ok(()));
    assert_eq!(second.as_str(), "[0, 1, 2, 3]");

    assert_ne!(first.as_str(), second.as_str());
}

#[test]
fn unsized_target_any_length() {
    let empty: &[u64] = &[];
    let carrier: Carrier<'_, [u64], SliceWithLenDebug> = empty.debug();
    let mut sink = Sink::new();
    assert_eq!(carrier.fmt_debug(&mut sink), Ok(()));
    assert_eq!(sink.as_str(), "Slice { len: 0, items: [] }");

    let one: &[u64] = &[7];
    let carrier: Carrier<'_, [u64], SliceWithLenDebug> = one.debug();
    let mut sink = Sink::new();
    assert_eq!(carrier.fmt_debug(&mut sink), Ok(()));
    assert_eq!(sink.as_str(), "Slice { len: 1, items: [7] }");

    let many: &[u64] = &[10, 205, 3000, 40000, 18446744073709551615];
    let carrier: Carrier<'_, [u64], BareSliceDebug> = many.debug();
    let mut sink = Sink::new();
    assert_eq!(carrier.fmt_debug(&mut sink), Ok(()));
    assert_eq!(sink.as_str(), "[10, 205, 3000, 40000, 18446744073709551615]");
}

#[test]
fn render_twice_gives_identical_output() {
    let v = ExternValue { value: 9000 };
    let carrier: Carrier<'_, ExternValue, ExternValueDebug> = v.debug();
    let mut first = Sink::new();
    let mut second = Sink::new();
    assert_eq!(carrier.fmt_debug(&mut first), Ok(()));
    assert_eq!(carrier.fmt_debug(&mut second), Ok(()));
    assert_eq!(first.as_str(), "ExternValue(9000)");
    assert_eq!(first.as_str(), second.as_str());
}

#[test]
fn render_appends_after_existing_output() {
    let v = ExternValue { value: 1 };
    let carrier: Carrier<'_, ExternValue, ExternValueDisplay> = v.display();
    let mut sink = Sink::new();
    assert_eq!(sink.write_str("prefix: "), Ok(()));
    assert_eq!(carrier.fmt_display(&mut sink), Ok(()));
    assert_eq!(sink.as_str(), "prefix: Extern type has a value - 1!");
}

#[test]
fn sink_error_propagates_unchanged_through_carrier() {
    let v = ExternValue { value: 42 };
    let carrier: Carrier<'_, ExternValue, ExternValueDebug> = v.debug();
    let mut sink = Sink::with_limit(3);
    assert_eq!(carrier.fmt_debug(&mut sink), Err(SinkError));
    assert_eq!(sink.as_str(), "");
}

#[test]
fn bounded_sink_takes_render_that_exactly_fits() {
    let v = ExternValue { value: 42 };
    let carrier: Carrier<'_, ExternValue, ExternValueDebug> = v.debug();
    let mut sink = Sink::with_limit("ExternValue(42)".len());
    assert_eq!(carrier.fmt_debug(&mut sink), Ok(()));
    assert_eq!(sink.as_str(), "ExternValue(42)");
}
