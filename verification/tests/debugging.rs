use std::collections::HashMap;

use mipsy_interactive::debug::{
    action_text, breakpoint, get_line_info, locate, location_text, watchpoint, Location,
    TargetAction, TargetWatch,
};
use mipsy_interactive::output::{Channel, Output, Span, Tone};

fn sp(tone: Tone, text: &str) -> Span {
    Span { tone, text: String::from(text) }
}

fn one_file() -> HashMap<u32, (String, u32)> {
    let mut m = HashMap::new();
    m.insert(0x400000, (String::from("a.s"), 1));
    m.insert(0x400008, (String::from("a.s"), 3));
    m
}

fn two_files() -> HashMap<u32, (String, u32)> {
    let mut m = one_file();
    m.insert(0x400010, (String::from("b.s"), 7));
    m.insert(0x400014, (String::from("b.s"), 8));
    m
}

#[test]
fn a_counter_inside_an_expansion_goes_by_the_line_before() {
    let location = get_line_info(&one_file(), 0x400004);
    assert_eq!(
        location,
        Location {
            file: String::from("a.s"),
            line: 1,
            offset: Some(0x400004),
            single_file: true
        }
    );
    let text = location_text(&location);
    assert_eq!(
        text,
        vec![sp(Tone::Plain, ":1 ("), sp(Tone::Yellow, "0x"), sp(Tone::Plain, "400004)")]
    );
    let whole: String = text.iter().map(|s| s.text.as_str()).collect();
    assert_eq!(whole, ":1 (0x400004)");
}

#[test]
fn a_counter_at_a_line_has_no_offset() {
    assert_eq!(
        get_line_info(&one_file(), 0x400008),
        Location { file: String::from("a.s"), line: 3, offset: None, single_file: true }
    );
    assert_eq!(
        get_line_info(&one_file(), 0x400000),
        Location { file: String::from("a.s"), line: 1, offset: None, single_file: true }
    );
    assert_eq!(
        get_line_info(&one_file(), u32::MAX),
        Location { file: String::from("a.s"), line: 3, offset: Some(u32::MAX), single_file: true }
    );
    assert_eq!(
        get_line_info(&two_files(), 0x400013),
        Location {
            file: String::from("b.s"),
            line: 7,
            offset: Some(0x400013),
            single_file: false
        }
    );
}

#[test]
fn the_file_is_named_only_among_several() {
    let single = get_line_info(&one_file(), 0x400008);
    assert_eq!(location_text(&single), vec![sp(Tone::Plain, ":3")]);
    let several = get_line_info(&two_files(), 0x400008);
    assert_eq!(location_text(&several), vec![sp(Tone::Plain, "a.s:3")]);
    let other = get_line_info(&two_files(), 0x400014);
    assert_eq!(location_text(&other), vec![sp(Tone::Plain, "b.s:8")]);
    let inside = get_line_info(&two_files(), 0x40000c);
    assert_eq!(
        location_text(&inside),
        vec![sp(Tone::Plain, "a.s:3 ("), sp(Tone::Yellow, "0x"), sp(Tone::Plain, "40000c)")]
    );
    let mut alone = HashMap::new();
    alone.insert(4, (String::from("only.s"), 10));
    assert_eq!(location_text(&get_line_info(&alone, 4)), vec![sp(Tone::Plain, ":10")]);
}

#[test]
fn a_breakpoint_goes_by_its_label_or_by_its_location() {
    let open = sp(Tone::CyanBold, "\n[BREAKPOINT ");
    let close = sp(Tone::CyanBold, "]");
    assert_eq!(
        breakpoint(Some("main"), 0x400004, &one_file()),
        Output {
            channel: Channel::Raw,
            body: vec![open.clone(), sp(Tone::Plain, "main"), close.clone()],
            newlines: 2
        }
    );
    assert_eq!(
        breakpoint(None, 0x400004, &one_file()),
        Output {
            channel: Channel::Raw,
            body: vec![
                open.clone(),
                sp(Tone::Plain, ":1 ("),
                sp(Tone::Yellow, "0x"),
                sp(Tone::Plain, "400004)"),
                close.clone()
            ],
            newlines: 2
        }
    );
    assert_eq!(
        breakpoint(None, 0x400010, &two_files()),
        Output {
            channel: Channel::Raw,
            body: vec![open, sp(Tone::Plain, "b.s:7"), close],
            newlines: 2
        }
    );
    assert_eq!(breakpoint(None, 0x400010, &two_files()).text(), "\n[BREAKPOINT b.s:7]");
    assert_eq!(
        breakpoint(None, 0x400004, &one_file()).text(),
        "\n[BREAKPOINT :1 (0x400004)]"
    );
}

fn watch(target: &str, action: TargetAction) -> TargetWatch {
    TargetWatch { target: String::from(target), action }
}

#[test]
fn a_watchpoint_for_reads_was_read_from() {
    let out = watchpoint(&watch("$t0", TargetAction::ReadOnly), 0x400008, &one_file());
    assert_eq!(
        out,
        Output {
            channel: Channel::Raw,
            body: vec![
                sp(Tone::CyanBold, "\n[WATCHPOINT"),
                sp(Tone::Plain, " "),
                sp(Tone::Plain, ":3"),
                sp(Tone::CyanBold, "]"),
                sp(Tone::Plain, " - $t0 was read from"),
            ],
            newlines: 2
        }
    );
    assert_eq!(out.text(), "\n[WATCHPOINT :3] - $t0 was read from");
    assert_eq!(action_text(TargetAction::ReadOnly), "read from");
}

#[test]
fn any_other_watchpoint_was_written_to() {
    let out = watchpoint(&watch("0x10010000", TargetAction::WriteOnly), 0x400011, &two_files());
    assert_eq!(out.text(), "\n[WATCHPOINT b.s:7 (0x400011)] - 0x10010000 was written to");
    let out = watchpoint(&watch("$sp", TargetAction::ReadWrite), 0x400000, &two_files());
    assert_eq!(out.text(), "\n[WATCHPOINT a.s:1] - $sp was written to");
    assert_eq!(out.body.len(), 5);
    assert_eq!(out.body[4], sp(Tone::Plain, " - $sp was written to"));
    assert_eq!(action_text(TargetAction::WriteOnly), "written to");
    assert_eq!(action_text(TargetAction::ReadWrite), "written to");
}

#[test]
fn a_counter_before_every_line_has_no_location() {
    assert_eq!(locate(&one_file(), 0x3ffffc), None);
    assert_eq!(locate(&one_file(), 0), None);
    assert_eq!(locate(&HashMap::new(), 0x400000), None);
    assert_eq!(locate(&HashMap::new(), u32::MAX), None);
    assert_eq!(locate(&one_file(), 0x400004), Some(get_line_info(&one_file(), 0x400004)));
    assert_eq!(
        locate(&two_files(), 0x400010),
        Some(Location { file: String::from("b.s"), line: 7, offset: None, single_file: false })
    );
}
