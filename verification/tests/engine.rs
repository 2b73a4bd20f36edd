//! Tests of the rendering and scheduling engine: threshold colors, segment
//! merging, the JSON protocol, and the update scheduler.
use rstatus::base::{Base, Value};
use rstatus::block_builder::{BlockBuilder, RenderFlags};
use rstatus::blocks::{due, header, Blocks, Scheduler};
use rstatus::memory;
use rstatus::utility::gcd;

fn plain_base() -> Base {
    Base::new()
}

fn render_to_string(b: &Base, prev_bg: Option<u32>) -> String {
    let mut out = String::new();
    b.render(prev_bg, &mut out);
    out
}

#[test]
fn threshold_color_example() {
    let mut b = plain_base();
    b.thresholds = vec![(50, 0xFFFF00), (80, 0xFF0000)];
    assert_eq!(b.get_to_color(30), 0xFFFFFF);
    assert_eq!(b.get_to_color(50), 0xFFFF00);
    assert_eq!(b.get_to_color(79), 0xFFFF00);
    assert_eq!(b.get_to_color(80), 0xFF0000);
    assert_eq!(b.get_to_color(95), 0xFF0000);
}

#[test]
fn threshold_color_empty_mapping() {
    let b = plain_base();
    assert_eq!(b.get_to_color(0), 0xFFFFFF);
    assert_eq!(b.get_to_color(u32::MAX), 0xFFFFFF);
}

#[test]
fn builder_merges_same_color() {
    let segs = BlockBuilder::new()
        .add("a", 7, RenderFlags::Separator)
        .add("b", 7, RenderFlags::Name)
        .get();
    assert_eq!(segs.len(), 1);
    assert_eq!(segs[0].text, "ab");
    assert_eq!(segs[0].color, 7);
    assert_eq!(segs[0].flags, RenderFlags::Both);
}

#[test]
fn builder_keeps_different_colors_apart() {
    let segs = BlockBuilder::new()
        .add("a", 1, RenderFlags::Plain)
        .add("b", 2, RenderFlags::Name)
        .get();
    assert_eq!(segs.len(), 2);
    assert_eq!(segs[0].text, "a");
    assert_eq!(segs[0].color, 1);
    assert_eq!(segs[0].flags, RenderFlags::Plain);
    assert_eq!(segs[1].text, "b");
    assert_eq!(segs[1].color, 2);
    assert_eq!(segs[1].flags, RenderFlags::Name);
}

#[test]
fn builder_empty_fragment_merges_into_predecessor() {
    let segs = BlockBuilder::new()
        .add("a", 3, RenderFlags::Plain)
        .add("", 3, RenderFlags::Separator)
        .get();
    assert_eq!(segs.len(), 1);
    assert_eq!(segs[0].text, "a");
    assert_eq!(segs[0].flags, RenderFlags::Separator);
}

#[test]
fn builder_empty_fragment_of_other_color_starts_segment() {
    let segs = BlockBuilder::new()
        .add("a", 3, RenderFlags::Plain)
        .add("", 4, RenderFlags::Plain)
        .get();
    assert_eq!(segs.len(), 2);
    assert_eq!(segs[1].text, "");
}

#[test]
fn int_render_round_trip() {
    let mut b = plain_base();
    b.value = Value::Int(42);
    b.name = String::from("cpuload");
    b.prefix = String::from("cpu ");
    b.suffix = String::from("%");
    b.prefix_color = Some(0x00FF00);
    b.separator_width = 4;
    let segs = b.subblocks();
    assert_eq!(segs.len(), 2);
    assert_eq!(segs[0].text, "cpu ");
    assert_eq!(segs[0].color, 0x00FF00);
    assert_eq!(segs[1].text, "42%");
    assert_eq!(segs[1].color, 0xFFFFFF);
    assert!(segs[1].flags.name());
    let line = render_to_string(&b, None);
    assert_eq!(
        line,
        "{\"full_text\":\"cpu \",\"separator\":false,\"separator_block_width\":0,\"color\":\"#00FF00\"},\
         {\"full_text\":\"42%\",\"separator_block_width\":4,\"name\":\"cpuload\",\"color\":\"#FFFFFF\"}"
    );
}

#[test]
fn int_render_merges_single_color_run() {
    let mut b = plain_base();
    b.value = Value::Int(5);
    b.name = String::from("memory");
    b.prefix = String::from("mem ");
    b.suffix = String::from("%");
    let segs = b.subblocks();
    assert_eq!(segs.len(), 1);
    assert_eq!(segs[0].text, "mem 5%");
    assert!(segs[0].flags.name());
    assert!(segs[0].flags.separator());
}

#[test]
fn threshold_fix_recolors_affixes() {
    let mut b = plain_base();
    b.value = Value::Int(90);
    b.prefix = String::from("p");
    b.suffix = String::from("s");
    b.prefix_color = Some(0x111111);
    b.suffix_color = Some(0x222222);
    b.threshold_fix = true;
    b.thresholds = vec![(80, 0xFF0000)];
    let segs = b.subblocks();
    assert_eq!(segs.len(), 1);
    assert_eq!(segs[0].text, "p90s");
    assert_eq!(segs[0].color, 0xFF0000);
}

#[test]
fn invalid_render_is_one_named_segment() {
    let mut b = plain_base();
    b.value = Value::Invalid;
    b.name = String::from("battery");
    let segs = b.subblocks();
    assert_eq!(segs.len(), 1);
    assert_eq!(segs[0].text, "invalid");
    assert_eq!(segs[0].color, 0xFF0000);
    assert!(segs[0].flags.name());
    let line = render_to_string(&b, None);
    assert_eq!(
        line,
        "{\"full_text\":\"invalid\",\"separator_block_width\":0,\"name\":\"battery\",\"color\":\"#FF0000\"}"
    );
}

#[test]
fn custom_separator_renders_leading_glyph() {
    let mut b = plain_base();
    b.value = Value::Str(String::from("txt"));
    b.name = String::from("custom");
    b.custom_separator = Some(String::from(">"));
    b.bgcolor = Some(0x000001);
    let line = render_to_string(&b, Some(0xABCDEF));
    assert_eq!(
        line,
        "{\"full_text\":\">\",\"separator\":false,\"separator_block_width\":0,\"color\":\"#000001\",\"background\":\"#ABCDEF\"},\
         {\"full_text\":\"txt\",\"separator\":false,\"separator_block_width\":0,\"background\":\"#000001\",\"name\":\"custom\",\"color\":\"#FFFFFF\"}"
    );
}

#[test]
fn wide_color_keeps_all_hex_digits() {
    let mut b = plain_base();
    b.value = Value::Invalid;
    b.invalid_color = 0xABCDEF12;
    let line = render_to_string(&b, None);
    assert!(line.contains("\"color\":\"#ABCDEF12\""));
}

fn memory_block(interval: u32, signal: u32) -> Blocks {
    let mut base = Base::new();
    base.interval = interval;
    base.signal = signal;
    Blocks::memory(memory::Block { base })
}

#[test]
fn tick_is_gcd_of_nonzero_intervals() {
    let sched = Scheduler::new(vec![
        memory_block(6, 0),
        memory_block(10, 0),
        memory_block(0, 0),
    ]);
    assert_eq!(sched.tick(), 2);
    assert_eq!(gcd(6, 10), 2);
}

#[test]
fn tick_without_intervals_is_zero() {
    let sched = Scheduler::new(vec![memory_block(0, 0)]);
    assert_eq!(sched.tick(), 0);
}

#[test]
fn interval_zero_is_never_due() {
    for count in [0u64, 1, 2, 5, 100] {
        assert!(!due(0, count));
    }
}

#[test]
fn due_fires_only_on_interval_multiples() {
    assert!(!due(5, 1));
    assert!(!due(5, 2));
    assert!(!due(5, 3));
    assert!(due(5, 5));
    assert!(due(5, 10));
    assert!(!due(5, 12));
    assert!(due(5, 15));
}

#[test]
fn due_targets_selects_blocks_by_interval() {
    let sched = Scheduler::new(vec![
        memory_block(6, 0),
        memory_block(10, 0),
        memory_block(0, 0),
    ]);
    assert_eq!(sched.due_targets(6), vec![0]);
    assert_eq!(sched.due_targets(10), vec![1]);
    assert_eq!(sched.due_targets(30), vec![0, 1]);
    assert_eq!(sched.due_targets(2), Vec::<usize>::new());
}

#[test]
fn signal_targets_use_realtime_base() {
    let sched = Scheduler::new(vec![memory_block(0, 1), memory_block(0, 2)]);
    assert_eq!(sched.signal_targets(34 + 1), vec![0]);
    assert_eq!(sched.signal_targets(34 + 2), vec![1]);
    assert_eq!(sched.signal_targets(34 + 3), Vec::<usize>::new());
}

#[test]
fn scheduler_assigns_names_and_indices() {
    let mut sched = Scheduler::new(vec![memory_block(0, 0), memory_block(0, 0)]);
    sched.set_value(0, Value::Int(1));
    sched.set_value(1, Value::Int(2));
    let line = sched.display_all();
    assert!(line.contains("\"name\":\"memory\""));
    assert!(line.starts_with('['));
    assert!(line.ends_with("],\n"));
}

#[test]
fn signal_update_refreshes_only_addressed_block() {
    let mut sched = Scheduler::new(vec![memory_block(0, 0), memory_block(0, 0)]);
    sched.set_value(0, Value::Int(11));
    sched.set_value(1, Value::Int(22));
    let before = sched.display_all();
    assert!(before.contains("\"full_text\":\"11\""));
    assert!(before.contains("\"full_text\":\"22\""));
    let line = sched.update_by_index(1, Value::Int(77));
    assert!(line.contains("\"full_text\":\"11\""));
    assert!(line.contains("\"full_text\":\"77\""));
    assert!(!line.contains("\"full_text\":\"22\""));
    assert_eq!(line, sched.display_all());
}

#[test]
fn full_line_shape() {
    let mut sched = Scheduler::new(vec![memory_block(0, 0)]);
    sched.set_value(0, Value::Int(3));
    let line = sched.display_all();
    assert_eq!(
        line,
        "[{\"full_text\":\"3\",\"separator_block_width\":0,\"name\":\"memory\",\"color\":\"#FFFFFF\"}],\n"
    );
}

#[test]
fn header_announces_protocol() {
    assert_eq!(
        header(),
        "{\"version\": 1, \"click_events\": false}\n[\n"
    );
}

#[test]
fn background_color_threads_between_blocks() {
    let mut first = Base::new();
    first.bgcolor = Some(0x123456);
    let mut second = Base::new();
    second.custom_separator = Some(String::from("|"));
    second.bgcolor = Some(0x654321);
    let mut sched = Scheduler::new(vec![
        Blocks::memory(memory::Block { base: first }),
        Blocks::memory(memory::Block { base: second }),
    ]);
    sched.set_value(0, Value::Int(1));
    sched.set_value(1, Value::Int(2));
    let line = sched.display_all();
    assert!(line.contains("\"full_text\":\"|\",\"separator\":false,\"separator_block_width\":0,\"color\":\"#654321\",\"background\":\"#123456\""));
}

#[test]
fn value_constructors_collapse_failures() {
    assert!(matches!(Value::new(7u32), Value::Int(7)));
    assert!(matches!(Value::new(Some(7u32)), Value::Int(7)));
    assert!(matches!(Value::new(None::<u32>), Value::Invalid));
    assert!(matches!(Value::new("text"), Value::Str(_)));
    assert!(matches!(Value::new(Ok::<u32, ()>(3)), Value::Int(3)));
    assert!(matches!(Value::new(Err::<u32, ()>(())), Value::Invalid));
    assert!(matches!(Value::new(Err::<String, ()>(())), Value::Invalid));
    assert!(matches!(Value::default(), Value::Invalid));
}
