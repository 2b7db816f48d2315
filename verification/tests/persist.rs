use attractors::persist::classify;
use attractors::persist::decode;
use attractors::persist::encode;
use attractors::persist::variant_of_record;
use attractors::persist::Record;
use attractors::state::StateRecord;
use attractors::LoadError;
use attractors::Model;
use attractors::State;
use attractors::Variant;
use serde_json::Value;

fn parsed(text: &str) -> Value {
    serde_json::from_str(text).unwrap()
}

fn duffing_record() -> Record<f64> {
    Record {
        name: "Duffing Attractor".to_string(),
        map_str: "dx/dt = y".to_string(),
        range: vec![(-1.0, 1.0), (-1.0, 1.0), (-5.0, 5.0)],
        speeds: vec![0.001; 3],
        coefs: vec![0.25, -0.3, 1.0],
        state: StateRecord {
            n: 2,
            x: vec![0.1, 0.2],
            init_x: vec![0.5, 0.5],
            x_range: (-1.0, 1.0),
            time: 0.0,
            dt: Some(0.0005),
            dt_range: Some(0.05),
        },
    }
}

#[test]
fn a_record_is_known_by_its_name() {
    for v in [
        Variant::Trigonometric,
        Variant::Clifford,
        Variant::Quadratic,
        Variant::Symmetric,
        Variant::Polar,
        Variant::Duffing,
        Variant::Lorenz,
        Variant::DoublePendulum,
    ] {
        let mut members = serde_json::Map::new();
        members.insert("coefs".to_string(), Value::Array(vec![]));
        members.insert("name".to_string(), Value::String(v.name().to_string()));
        let found = variant_of_record(&Value::Object(members));
        assert!(matches!(found, Ok(k) if k == v));
    }
}

#[test]
fn the_name_is_read_from_the_member_called_name() {
    let rec = parsed(r#"{"map_str": "Lorenz Attractor", "name": "Polar Attractor", "title": "DoublePendulum"}"#);
    assert!(matches!(variant_of_record(&rec), Ok(Variant::Polar)));
}

#[test]
fn a_record_without_a_name_is_refused() {
    assert!(matches!(
        variant_of_record(&parsed(r#"{"coefs": [1.0, 2.0]}"#)),
        Err(LoadError::NameNotFound)
    ));
    assert!(matches!(variant_of_record(&parsed("{}")), Err(LoadError::NameNotFound)));
}

#[test]
fn a_name_that_is_no_string_is_no_name() {
    assert!(matches!(
        variant_of_record(&parsed(r#"{"name": 3}"#)),
        Err(LoadError::NameNotFound)
    ));
    assert!(matches!(
        variant_of_record(&parsed(r#"{"name": null}"#)),
        Err(LoadError::NameNotFound)
    ));
    assert!(matches!(
        variant_of_record(&parsed(r#"{"name": ["Polar Attractor"]}"#)),
        Err(LoadError::NameNotFound)
    ));
}

#[test]
fn a_value_that_is_no_object_has_no_name() {
    assert!(matches!(
        variant_of_record(&parsed(r#""Polar Attractor""#)),
        Err(LoadError::NameNotFound)
    ));
    assert!(matches!(
        variant_of_record(&parsed(r#"["name", "Polar Attractor"]"#)),
        Err(LoadError::NameNotFound)
    ));
    assert!(matches!(variant_of_record(&Value::Null), Err(LoadError::NameNotFound)));
}

#[test]
fn an_unknown_name_is_refused_and_kept() {
    match variant_of_record(&parsed(r#"{"name": "Custom Attractor"}"#)) {
        Err(LoadError::InvalidName(name)) => assert_eq!(name, "Custom Attractor"),
        other => panic!("{:?}", other),
    }
    match variant_of_record(&parsed(r#"{"name": ""}"#)) {
        Err(LoadError::InvalidName(name)) => assert_eq!(name, ""),
        other => panic!("{:?}", other),
    }
}

#[test]
fn classify_tells_the_three_outcomes_apart() {
    assert!(matches!(classify(None), Err(LoadError::NameNotFound)));
    assert!(matches!(classify(Some("Lorenz Attractor".to_string())), Ok(Variant::Lorenz)));
    match classify(Some("Lorentz".to_string())) {
        Err(LoadError::InvalidName(name)) => assert_eq!(name, "Lorentz"),
        other => panic!("{:?}", other),
    }
}

#[test]
fn a_record_decodes_to_the_model_that_it_spells_out() {
    let m = decode(duffing_record(), 0.0).unwrap();
    assert_eq!(m.kind(), Variant::Duffing);
    assert_eq!(m.coefs(), &[0.25, -0.3, 1.0]);
    assert_eq!(m.coef_ranges(), &[(-1.0, 1.0), (-1.0, 1.0), (-5.0, 5.0)]);
    assert_eq!(m.speeds(), &[0.001; 3]);
    assert_eq!(m.state().get_xy(), (0.1, 0.2));
    assert_eq!(m.state().get_init_val(), &[0.5, 0.5]);
    assert_eq!(m.state().get_dt(), Some(0.0005));
    assert_eq!(m.state().get_dt_range(), Some(0.05));
    assert_eq!(m.map_str(), Variant::Duffing.map_str());
}

#[test]
fn a_record_with_an_unknown_name_does_not_decode() {
    let mut rec = duffing_record();
    rec.name = "Duffing".to_string();
    match decode(rec, 0.0) {
        Err(LoadError::InvalidName(name)) => assert_eq!(name, "Duffing"),
        other => panic!("{:?}", other.map(|m| m.kind())),
    }
}

#[test]
fn a_record_of_the_wrong_shape_does_not_decode() {
    let mut rec = duffing_record();
    rec.coefs.push(0.0);
    assert!(matches!(decode(rec, 0.0), Err(LoadError::Malformed)));

    let mut rec = duffing_record();
    rec.range.pop();
    assert!(matches!(decode(rec, 0.0), Err(LoadError::Malformed)));

    let mut rec = duffing_record();
    rec.speeds.clear();
    assert!(matches!(decode(rec, 0.0), Err(LoadError::Malformed)));

    let mut rec = duffing_record();
    rec.state.x.push(0.0);
    assert!(matches!(decode(rec, 0.0), Err(LoadError::Malformed)));

    let mut rec = duffing_record();
    rec.state.n = 3;
    rec.state.x.push(0.0);
    rec.state.init_x.push(0.0);
    assert!(matches!(decode(rec, 0.0), Err(LoadError::Malformed)));

    let mut rec = duffing_record();
    rec.state.dt = None;
    rec.state.dt_range = None;
    assert!(matches!(decode(rec, 0.0), Err(LoadError::Malformed)));

    let mut rec = duffing_record();
    rec.state.dt_range = None;
    assert!(matches!(decode(rec, 0.0), Err(LoadError::Malformed)));

    let mut rec = duffing_record();
    rec.name = "Quadratic Attractor".to_string();
    assert!(matches!(decode(rec, 0.0), Err(LoadError::Malformed)));
}

#[test]
fn a_model_written_down_and_read_back_is_the_same() {
    let mut m = Model::new(
        Variant::DoublePendulum,
        vec![1.0, 1.0 / 3.0, 0.1 + 0.2, 1.0e-17, 9.8],
        vec![(0.1, 2.0), (0.1, 2.0), (0.1, 2.0), (0.1, 2.0), (0.0, 10.0)],
        vec![0.001; 5],
        State::new(4, 0.5, (-6.25, 6.25), 0.0, Some((0.0005, 0.05))),
    )
    .unwrap();
    *m.state_mut().get_init_val_mut(3) = -2.0 / 3.0;
    if let Some(dt) = m.state_mut().get_dt_mut() {
        *dt = 0.00025;
    }
    let rec = encode(&m);
    assert_eq!(rec.name, "DoublePendulum");
    assert_eq!(rec.map_str, Variant::DoublePendulum.map_str());
    let back = decode(rec, 0.0).unwrap();
    assert_eq!(back.kind(), Variant::DoublePendulum);
    let bits = |v: &[f64]| v.iter().map(|c| c.to_bits()).collect::<Vec<u64>>();
    assert_eq!(bits(back.coefs()), bits(m.coefs()));
    assert_eq!(bits(back.state().get_init_val()), bits(m.state().get_init_val()));
    assert_eq!(back.state().get_init_val()[3], -2.0 / 3.0);
    assert_eq!(back.state().get_dt(), Some(0.00025));
    assert_eq!(back.state().get_dt_range(), Some(0.05));
    assert_eq!(back.coef_ranges(), m.coef_ranges());
    assert_eq!(back.speeds(), m.speeds());
}

fn numbers(values: &[f64]) -> Value {
    Value::Array(values.iter().map(|v| Value::from(*v)).collect())
}

fn floats(value: &Value) -> Vec<f64> {
    value.as_array().unwrap().iter().map(|v| v.as_f64().unwrap()).collect()
}

#[test]
fn coefficients_survive_the_text_of_a_record_bit_for_bit() {
    let coefs = [1.0, 1.0 / 3.0, 0.1 + 0.2, 1.0e-17, -9.8, 5.0e-324, 1.7976931348623157e308, -0.0];
    let init_x = [0.5, -2.0 / 3.0];
    let mut members = serde_json::Map::new();
    members.insert("name".to_string(), Value::String("Trigonometric Attractor".to_string()));
    members.insert("coefs".to_string(), numbers(&coefs));
    members.insert("init_x".to_string(), numbers(&init_x));
    let text = serde_json::to_string(&Value::Object(members)).unwrap();

    let read = parsed(&text);
    assert!(matches!(variant_of_record(&read), Ok(Variant::Trigonometric)));
    let rec = Record {
        name: read["name"].as_str().unwrap().to_string(),
        map_str: String::new(),
        range: vec![(-5.0, 5.0); 8],
        speeds: vec![0.001; 8],
        coefs: floats(&read["coefs"]),
        state: StateRecord {
            n: 2,
            x: floats(&read["init_x"]),
            init_x: floats(&read["init_x"]),
            x_range: (-1.0, 1.0),
            time: 0.0,
            dt: None,
            dt_range: None,
        },
    };
    let m = decode(rec, 0.0).unwrap();
    let bits = |v: &[f64]| v.iter().map(|c| c.to_bits()).collect::<Vec<u64>>();
    assert_eq!(bits(m.coefs()), bits(&coefs));
    assert_eq!(bits(m.state().get_init_val()), bits(&init_x));
    assert_eq!(m.state().get_dt(), None);
}
