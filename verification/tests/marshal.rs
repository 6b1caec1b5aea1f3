use cpy::{
    as_c_port_type, as_c_port_value, as_c_ports, as_c_string, from_c_port, from_c_ports,
    read_c_text, text_eq, CPyPort, CPyPortType, CPyPortValue, Outcome, Ports, Value,
};

fn sorted(v: &[CPyPort]) -> Vec<(Option<Vec<u8>>, CPyPortType, CPyPortValue)> {
    let mut out: Vec<_> = v.iter().map(|p| (p.name.clone(), p.type_, p.value)).collect();
    out.sort_by(|x, y| x.0.cmp(&y.0));
    out
}

#[test]
fn kinds_are_numbered_in_the_order_of_the_c_layout() {
    assert_eq!(CPyPortType::Float.code(), 0);
    assert_eq!(CPyPortType::Int.code(), 1);
    assert_eq!(CPyPortType::Bool.code(), 2);
    assert_eq!(CPyPortType::from_code(0), Some(CPyPortType::Float));
    assert_eq!(CPyPortType::from_code(1), Some(CPyPortType::Int));
    assert_eq!(CPyPortType::from_code(2), Some(CPyPortType::Bool));
    assert_eq!(CPyPortType::from_code(3), None);
    assert_eq!(CPyPortType::from_code(u32::MAX), None);
}

#[test]
fn three_tags_are_recognised() {
    assert_eq!(CPyPortType::of_tag("float"), Some(CPyPortType::Float));
    assert_eq!(CPyPortType::of_tag("int"), Some(CPyPortType::Int));
    assert_eq!(CPyPortType::of_tag("bool"), Some(CPyPortType::Bool));
    assert_eq!(CPyPortType::of_tag("string"), None);
    assert_eq!(CPyPortType::of_tag("Float"), None);
    assert_eq!(CPyPortType::of_tag("int "), None);
    assert_eq!(CPyPortType::of_tag(""), None);
}

#[test]
fn a_value_is_laid_out_in_the_member_of_its_kind() {
    let pi = std::f64::consts::PI.to_bits();
    assert_eq!(as_c_port_type(&Value::Float(pi)), CPyPortType::Float);
    assert_eq!(as_c_port_value(&Value::Float(pi)), CPyPortValue { d: pi, i: 0, b: false });
    assert_eq!(as_c_port_type(&Value::Integer(-7)), CPyPortType::Int);
    assert_eq!(as_c_port_value(&Value::Integer(-7)), CPyPortValue { d: 0, i: -7, b: false });
    assert_eq!(as_c_port_type(&Value::Bool(true)), CPyPortType::Bool);
    assert_eq!(as_c_port_value(&Value::Bool(true)), CPyPortValue { d: 0, i: 0, b: true });
}

#[test]
fn a_flat_record_is_read_by_its_discriminant_alone() {
    let payload = CPyPortValue { d: 2.5f64.to_bits(), i: 11, b: true };
    let read = |type_| from_c_port(&CPyPort { name: None, type_, value: payload });
    assert_eq!(read(CPyPortType::Float), Value::Float(2.5f64.to_bits()));
    assert_eq!(read(CPyPortType::Int), Value::Integer(11));
    assert_eq!(read(CPyPortType::Bool), Value::Bool(true));
}

#[test]
fn a_value_survives_its_flat_form() {
    let values = [
        Value::Float(0.1f64.to_bits()),
        Value::Float(f64::NAN.to_bits()),
        Value::Float((-0.0f64).to_bits()),
        Value::Integer(isize::MAX),
        Value::Integer(isize::MIN),
        Value::Integer(0),
        Value::Bool(false),
        Value::Bool(true),
    ];
    for value in values {
        let record = CPyPort {
            name: None,
            type_: as_c_port_type(&value),
            value: as_c_port_value(&value),
        };
        assert_eq!(from_c_port(&record), value);
    }
}

#[test]
fn a_c_string_is_read_as_utf8() {
    assert_eq!(read_c_text(Some(b"outports".as_slice())), Some("outports"));
    assert_eq!(read_c_text(Some("grüß".as_bytes())), Some("grüß"));
    assert_eq!(read_c_text(Some(b"".as_slice())), Some(""));
    assert_eq!(read_c_text(None), None);
    assert_eq!(read_c_text(Some([0xffu8].as_slice())), None);
    assert_eq!(read_c_text(Some([b'a', 0xc3].as_slice())), None);
    assert_eq!(read_c_text(Some([0xed, 0xa0, 0x80].as_slice())), None);
}

#[test]
fn a_text_with_a_nul_inside_has_no_c_string() {
    assert_eq!(as_c_string("speed".to_string()), Some(b"speed".to_vec()));
    assert_eq!(as_c_string("é".to_string()), Some(vec![0xc3, 0xa9]));
    assert_eq!(as_c_string(String::new()), Some(Vec::new()));
    assert_eq!(as_c_string("a\0b".to_string()), None);
    assert_eq!(as_c_string("\0".to_string()), None);
}

#[test]
fn texts_are_compared_by_content() {
    assert!(text_eq("float", "float"));
    assert!(text_eq("", ""));
    assert!(!text_eq("float", "floa"));
    assert!(!text_eq("float", "floats"));
    assert!(!text_eq("int", "int\0"));
    assert!(!text_eq("é", "e"));
}

#[test]
fn ports_hold_each_name_once() {
    let mut ports = Ports::new();
    assert!(ports.is_empty());
    assert_eq!(ports.len(), 0);
    assert_eq!(ports.get("a"), None);
    ports.insert("a".to_string(), Value::Integer(1));
    ports.insert("b".to_string(), Value::Bool(false));
    assert_eq!(ports.len(), 2);
    assert!(!ports.is_empty());
    ports.insert("a".to_string(), Value::Float(1.0f64.to_bits()));
    assert_eq!(ports.len(), 2);
    assert_eq!(ports.get("a"), Some(Value::Float(1.0f64.to_bits())));
    assert_eq!(ports.get("b"), Some(Value::Bool(false)));
    assert_eq!(ports.get("c"), None);
    assert!(ports.contains_key("a"));
    assert!(ports.contains_key("b"));
    assert!(!ports.contains_key(""));
    let mut names = vec![ports.name_at(0).to_string(), ports.name_at(1).to_string()];
    names.sort();
    assert_eq!(names, vec!["a".to_string(), "b".to_string()]);
    let at_a = if ports.name_at(0) == "a" { 0 } else { 1 };
    assert_eq!(ports.value_at(at_a), Value::Float(1.0f64.to_bits()));
    assert_eq!(ports.value_at(1 - at_a), Value::Bool(false));
}

#[test]
fn ports_are_laid_out_one_record_for_each_name() {
    let mut ports = Ports::new();
    ports.insert("gain".to_string(), Value::Float(0.5f64.to_bits()));
    ports.insert("count".to_string(), Value::Integer(3));
    ports.insert("on".to_string(), Value::Bool(true));
    let buffer = as_c_ports(&ports);
    assert_eq!(
        sorted(&buffer),
        vec![
            (
                Some(b"count".to_vec()),
                CPyPortType::Int,
                CPyPortValue { d: 0, i: 3, b: false }
            ),
            (
                Some(b"gain".to_vec()),
                CPyPortType::Float,
                CPyPortValue { d: 0.5f64.to_bits(), i: 0, b: false }
            ),
            (
                Some(b"on".to_vec()),
                CPyPortType::Bool,
                CPyPortValue { d: 0, i: 0, b: true }
            ),
        ]
    );
    assert!(as_c_ports(&Ports::new()).is_empty());
}

#[test]
fn ports_come_back_from_their_flat_form() {
    let mut ports = Ports::new();
    ports.insert("gain".to_string(), Value::Float(0.5f64.to_bits()));
    ports.insert("count".to_string(), Value::Integer(-3));
    ports.insert("on".to_string(), Value::Bool(true));
    ports.insert("größe".to_string(), Value::Integer(8));
    let back = from_c_ports(as_c_ports(&ports)).expect("every name is readable");
    assert_eq!(back.len(), 4);
    assert_eq!(back.get("gain"), Some(Value::Float(0.5f64.to_bits())));
    assert_eq!(back.get("count"), Some(Value::Integer(-3)));
    assert_eq!(back.get("on"), Some(Value::Bool(true)));
    assert_eq!(back.get("größe"), Some(Value::Integer(8)));
    let empty = from_c_ports(as_c_ports(&Ports::new())).expect("there is no name to read");
    assert!(empty.is_empty());
}

#[test]
fn a_name_with_a_nul_inside_does_not_come_back() {
    let mut ports = Ports::new();
    ports.insert("a\0b".to_string(), Value::Integer(1));
    let buffer = as_c_ports(&ports);
    assert_eq!(buffer.len(), 1);
    assert_eq!(buffer[0].name, None);
    assert!(from_c_ports(buffer).is_none());
}

#[test]
fn a_buffer_is_read_in_order_and_the_last_record_of_a_name_wins() {
    let record = |name: &str, value: Value| CPyPort {
        name: Some(name.as_bytes().to_vec()),
        type_: as_c_port_type(&value),
        value: as_c_port_value(&value),
    };
    let buffer = vec![
        record("x", Value::Integer(1)),
        record("y", Value::Bool(true)),
        record("x", Value::Float(4.0f64.to_bits())),
    ];
    let ports = from_c_ports(buffer).expect("every name is readable");
    assert_eq!(ports.len(), 2);
    assert_eq!(ports.get("x"), Some(Value::Float(4.0f64.to_bits())));
    assert_eq!(ports.get("y"), Some(Value::Bool(true)));
}

#[test]
fn one_unreadable_name_fails_the_whole_buffer() {
    let good = CPyPort {
        name: Some(b"x".to_vec()),
        type_: CPyPortType::Int,
        value: CPyPortValue { d: 0, i: 1, b: false },
    };
    let bad = CPyPort {
        name: Some(vec![0x80]),
        type_: CPyPortType::Int,
        value: CPyPortValue { d: 0, i: 2, b: false },
    };
    let null = CPyPort {
        name: None,
        type_: CPyPortType::Bool,
        value: CPyPortValue { d: 0, i: 0, b: true },
    };
    assert!(from_c_ports(vec![good, bad]).is_none());
    assert!(from_c_ports(vec![null]).is_none());
    assert!(from_c_ports(Vec::new()).expect("nothing to read").is_empty());
}

#[test]
fn an_outcome_carries_status_and_diagnostic() {
    let ok = Outcome::of_result(Ok(()));
    assert_eq!((ok.status, ok.diagnostic), (0, None));
    let failed = Outcome::of_result(Err("boom".to_string()));
    assert_eq!((failed.status, failed.diagnostic), (1, Some("boom".to_string())));
    let refused = Outcome::refused();
    assert_eq!((refused.status, refused.diagnostic), (1, None));
    assert_eq!(cpy::STATUS_OK, 0);
    assert_eq!(cpy::STATUS_FAILED, 1);
}

#[test]
fn pairs_are_written_in_order_and_the_last_of_a_name_wins() {
    let pairs = vec![
        ("x".to_string(), Value::Integer(1)),
        ("y".to_string(), Value::Bool(true)),
        ("x".to_string(), Value::Integer(2)),
    ];
    let ports = Ports::from_pairs(pairs);
    assert_eq!(ports.len(), 2);
    assert_eq!(ports.get("x"), Some(Value::Integer(2)));
    assert_eq!(ports.get("y"), Some(Value::Bool(true)));
    assert!(Ports::from_pairs(Vec::new()).is_empty());
}
