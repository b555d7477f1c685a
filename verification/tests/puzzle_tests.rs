use puzzle_sampler::domain::{Owner, Payload, PortType};
use puzzle_sampler::marshal::{ConversionError, ExpectedShape, Guest, RangeTarget};
use puzzle_sampler::puzzle::{LoadStage, Puzzle, SampleErrorKind};
use puzzle_sampler::registry::RegistrationError;

const CONSTANT_SIMPLE: &str = r#"
function get_name()
  return "constant simple"
end

function step()
  declare_channel("alpha", "1", TYPE_SIMPLE, DIR_INPUT, 42)
end
"#;

const COUNTER: &str = r#"
count = 0

function get_name()
  return "counter"
end

function step()
  count = count + 1
  declare_channel("c", "1", TYPE_SIMPLE, DIR_OUTPUT, count)
end
"#;

#[test]
fn open_stores_the_scripts_name_and_identifier() {
    let p = Puzzle::open(CONSTANT_SIMPLE, "demo.lua").unwrap();
    assert_eq!(p.name, "constant simple");
    assert_eq!(p.path, "demo.lua");
}

#[test]
fn three_steps_of_a_constant_script_give_three_equal_samples() {
    let mut p = Puzzle::open(CONSTANT_SIMPLE, "demo.lua").unwrap();
    let samples = p.sample(3).unwrap();
    assert_eq!(samples.len(), 3);
    for s in &samples {
        assert_eq!(s.channels.len(), 1);
        let c = &s.channels[0];
        assert_eq!(c.id, 1);
        assert_eq!(c.owner, Owner::Environment);
        assert_eq!(c.values, vec![Payload::Simple(42)]);
    }
}

#[test]
fn repeated_next_matches_one_batched_sample_for_a_step_counting_script() {
    let mut one_by_one = Puzzle::open(COUNTER, "counter.lua").unwrap();
    let mut singles = Vec::new();
    for _ in 0..3 {
        singles.push(one_by_one.next().unwrap());
    }

    let mut batched = Puzzle::open(COUNTER, "counter.lua").unwrap();
    let batch = batched.sample(3).unwrap();

    assert_eq!(singles, batch);
    for (i, s) in batch.iter().enumerate() {
        assert_eq!(s.channels[0].values, vec![Payload::Simple(i as u8 + 1)]);
    }
}

#[test]
fn sample_into_appends_without_touching_existing_entries() {
    let mut p = Puzzle::open(COUNTER, "counter.lua").unwrap();
    let mut buffer = Vec::new();
    p.sample_into(2, &mut buffer).unwrap();
    assert_eq!(buffer.len(), 2);
    let first_two = buffer.clone();

    p.sample_into(3, &mut buffer).unwrap();
    assert_eq!(buffer.len(), 5);
    assert_eq!(&buffer[..2], &first_two[..]);
    for (i, s) in buffer.iter().enumerate() {
        assert_eq!(s.channels[0].values, vec![Payload::Simple(i as u8 + 1)]);
    }
}

#[test]
fn duplicate_id_in_one_step_fails_with_duplicate_channel() {
    let script = r#"
function get_name()
  return "duplicate"
end

function step()
  declare_channel("a", "7", TYPE_SIMPLE, DIR_INPUT, 1)
  declare_channel("b", "7", TYPE_SIMPLE, DIR_INPUT, 2)
end
"#;
    let mut p = Puzzle::open(script, "dup.lua").unwrap();
    let e = p.next().unwrap_err();
    assert_eq!(e.step, 0);
    assert_eq!(
        e.kind,
        SampleErrorKind::Registration(RegistrationError::DuplicateChannel { id: 7 })
    );
}

#[test]
fn duplicate_swallowed_by_the_guest_still_fails_the_step() {
    let script = r#"
function get_name()
  return "swallow"
end

function step()
  declare_channel("a", "7", TYPE_SIMPLE, DIR_INPUT, 1)
  pcall(declare_channel, "b", "7", TYPE_SIMPLE, DIR_INPUT, 2)
end
"#;
    let mut p = Puzzle::open(script, "swallow.lua").unwrap();
    let e = p.next().unwrap_err();
    assert_eq!(
        e.kind,
        SampleErrorKind::Registration(RegistrationError::DuplicateChannel { id: 7 })
    );
}

#[test]
fn out_of_range_xbus_payload_fails_with_the_xbus_bound() {
    let script = r#"
function get_name()
  return "xbus out of range"
end

function step()
  declare_channel("x", "2", TYPE_XBUS, DIR_INPUT, {1000, -5})
end
"#;
    let mut p = Puzzle::open(script, "range.lua").unwrap();
    let e = p.next().unwrap_err();
    assert_eq!(e.step, 0);
    assert_eq!(
        e.kind,
        SampleErrorKind::Conversion(ConversionError::Range {
            target: RangeTarget::XbusValue,
            lo: -999,
            hi: 999,
        })
    );
}

#[test]
fn simple_channel_with_xbus_payload_fails_with_port_type_mismatch() {
    let script = r#"
function get_name()
  return "mismatch"
end

function step()
  declare_channel("m", "3", TYPE_SIMPLE, DIR_INPUT, {1, 2})
end
"#;
    let mut p = Puzzle::open(script, "mismatch.lua").unwrap();
    let e = p.next().unwrap_err();
    assert_eq!(
        e.kind,
        SampleErrorKind::Registration(RegistrationError::PortTypeMismatch {
            id: 3,
            declared: PortType::Simple,
            actual: PortType::Xbus,
        })
    );
}

#[test]
fn xbus_channel_with_simple_payload_fails_with_port_type_mismatch() {
    let script = r#"
function get_name()
  return "mismatch"
end

function step()
  declare_channel("m", "4", TYPE_XBUS, DIR_INPUT, 9)
end
"#;
    let mut p = Puzzle::open(script, "mismatch2.lua").unwrap();
    let e = p.next().unwrap_err();
    assert_eq!(
        e.kind,
        SampleErrorKind::Registration(RegistrationError::PortTypeMismatch {
            id: 4,
            declared: PortType::Xbus,
            actual: PortType::Simple,
        })
    );
}

#[test]
fn unparseable_id_fails_with_invalid_id() {
    let script = r#"
function get_name()
  return "bad id"
end

function step()
  declare_channel("b", "abc", TYPE_SIMPLE, DIR_INPUT, 1)
end
"#;
    let mut p = Puzzle::open(script, "badid.lua").unwrap();
    let e = p.next().unwrap_err();
    assert_eq!(
        e.kind,
        SampleErrorKind::Registration(RegistrationError::InvalidId {
            given: Guest::Text(String::from("abc")),
        })
    );
}

#[test]
fn channels_keep_declaration_order_not_id_order() {
    let script = r#"
function get_name()
  return "order"
end

function step()
  declare_channel("a", "5", TYPE_SIMPLE, DIR_INPUT, 1)
  declare_channel("b", "3", TYPE_XBUS, DIR_OUTPUT, {7, -7})
  declare_channel("c", "9", TYPE_SIMPLE, DIR_OUTPUT, 2)
end
"#;
    let mut p = Puzzle::open(script, "order.lua").unwrap();
    let s = p.next().unwrap();
    let ids: Vec<u8> = s.channels.iter().map(|c| c.id).collect();
    assert_eq!(ids, vec![5, 3, 9]);
    assert_eq!(s.channels[1].owner, Owner::Agent);
    assert_eq!(s.channels[1].values, vec![Payload::Xbus(vec![7, -7])]);
}

#[test]
fn a_failing_step_aborts_the_batch_with_its_index() {
    let script = r#"
count = 0

function get_name()
  return "fails at the third step"
end

function step()
  count = count + 1
  if count == 3 then
    error("boom")
  end
  declare_channel("c", "1", TYPE_SIMPLE, DIR_INPUT, count)
end
"#;
    let mut p = Puzzle::open(script, "fail3.lua").unwrap();
    let mut buffer = Vec::new();
    let e = p.sample_into(5, &mut buffer).unwrap_err();
    assert_eq!(e.step, 2);
    assert!(matches!(e.kind, SampleErrorKind::Step(_)));
    assert_eq!(buffer.len(), 2);
}

#[test]
fn a_missing_step_function_is_a_step_error() {
    let script = r#"
function get_name()
  return "no step"
end
"#;
    let mut p = Puzzle::open(script, "nostep.lua").unwrap();
    let e = p.next().unwrap_err();
    assert_eq!(e.step, 0);
    assert!(matches!(e.kind, SampleErrorKind::Step(_)));
}

#[test]
fn a_syntax_error_is_a_load_error_at_execution() {
    let e = match Puzzle::open("function step( end", "broken.lua") {
        Err(e) => e,
        Ok(_) => panic!("expected a load error"),
    };
    assert_eq!(e.script, "broken.lua");
    assert_eq!(e.stage, LoadStage::Execution);
}

#[test]
fn a_top_level_runtime_error_is_a_load_error_at_execution() {
    let e = match Puzzle::open("error('top level')", "toplevel.lua") {
        Err(e) => e,
        Ok(_) => panic!("expected a load error"),
    };
    assert_eq!(e.script, "toplevel.lua");
    assert_eq!(e.stage, LoadStage::Execution);
}

#[test]
fn a_missing_name_entry_point_is_a_load_error() {
    let e = match Puzzle::open("function step() end", "nameless.lua") {
        Err(e) => e,
        Ok(_) => panic!("expected a load error"),
    };
    assert_eq!(e.script, "nameless.lua");
    assert_eq!(e.stage, LoadStage::NameEntry);
}

#[test]
fn a_non_string_name_is_a_load_error() {
    let e = match Puzzle::open("function get_name() return {} end", "tablename.lua") {
        Err(e) => e,
        Ok(_) => panic!("expected a load error"),
    };
    assert_eq!(e.stage, LoadStage::NameEntry);
}

#[test]
fn the_guest_sees_no_io_os_or_module_loading() {
    let script = r#"
function get_name()
  if os == nil and io == nil and require == nil and math ~= nil and table ~= nil then
    return "sandboxed"
  end
  return "open"
end

function step()
end
"#;
    let p = Puzzle::open(script, "sandbox.lua").unwrap();
    assert_eq!(p.name, "sandboxed");
}

#[test]
fn an_empty_step_gives_an_empty_sample() {
    let script = r#"
function get_name()
  return "quiet"
end

function step()
end
"#;
    let mut p = Puzzle::open(script, "quiet.lua").unwrap();
    let s = p.next().unwrap();
    assert!(s.channels.is_empty());
}

#[test]
fn sample_zero_steps_returns_an_empty_batch() {
    let mut p = Puzzle::open(CONSTANT_SIMPLE, "demo.lua").unwrap();
    let samples = p.sample(0).unwrap();
    assert!(samples.is_empty());
}

#[test]
fn a_numeric_id_is_accepted_like_a_string_id() {
    let script = r#"
function get_name()
  return "numeric id"
end

function step()
  declare_channel("n", 200, TYPE_XBUS, DIR_OUTPUT, {0})
end
"#;
    let mut p = Puzzle::open(script, "numid.lua").unwrap();
    let s = p.next().unwrap();
    assert_eq!(s.channels.len(), 1);
    assert_eq!(s.channels[0].id, 200);
    assert_eq!(s.channels[0].values, vec![Payload::Xbus(vec![0])]);
}

#[test]
fn a_non_boolean_owner_marker_is_a_type_mismatch() {
    let script = r#"
function get_name()
  return "bad owner"
end

function step()
  declare_channel("o", "1", TYPE_SIMPLE, "north", 5)
end
"#;
    let mut p = Puzzle::open(script, "badowner.lua").unwrap();
    let e = p.next().unwrap_err();
    assert_eq!(
        e.kind,
        SampleErrorKind::Conversion(ConversionError::TypeMismatch {
            expected: ExpectedShape::BoolOwner,
        })
    );
}
