//! End-to-end tests: lines of text in, response lines out.

use square_backend::sim::{Simulation, TickOutcome, process_lines};
use square_backend::num::Decimal;
use square_backend::world::Vec2;

fn run(lines: &[&str]) -> Vec<String> {
    let owned: Vec<String> = lines.iter().map(|l| l.to_string()).collect();
    process_lines(&owned)
}

#[test]
fn spawn_then_velocity_example() {
    let out = run(&[
        "{\"id\":\"1\",\"method\":\"spawn\",\"params\":[]}",
        "{\"id\":\"2\",\"method\":\"velocity\",\"params\":[\"0\",\"3.5\",\"-2.0\"]}",
    ]);
    assert_eq!(out, vec![
        "{\"id\":\"1\",\"entity_id\":0}".to_string(),
        "{\"id\":\"2\"}".to_string(),
    ]);
}

#[test]
fn velocity_value_is_stored_exactly() {
    let mut sim = Simulation::new();
    sim.ingest_line("{\"id\":\"1\",\"method\":\"spawn\",\"params\":[]}");
    sim.tick();
    sim.ingest_line("{\"id\":\"2\",\"method\":\"velocity\",\"params\":[\"0\",\"3.5\",\"-2.0\"]}");
    match sim.tick() {
        TickOutcome::Emitted(line) => assert_eq!(line, "{\"id\":\"2\"}"),
        other => panic!("expected a response line, got {:?}", other),
    }
    let v = sim.world.get_velocity(0).expect("entity 0 should have a velocity");
    let expected = Vec2 {
        x: Decimal { neg: false, int_part: 3, frac_part: 5, frac_len: 1 },
        y: Decimal { neg: true, int_part: 2, frac_part: 0, frac_len: 1 },
    };
    assert_eq!(v, expected);
}

#[test]
fn spawn_components_commit_at_maintenance() {
    let mut sim = Simulation::new();
    sim.ingest_line("{\"id\":\"1\",\"method\":\"spawn\",\"params\":[]}");
    sim.tick();
    let zero = Vec2 {
        x: Decimal { neg: false, int_part: 0, frac_part: 0, frac_len: 0 },
        y: Decimal { neg: false, int_part: 0, frac_part: 0, frac_len: 0 },
    };
    assert_eq!(sim.world.get_position(0), Some(zero));
    assert_eq!(sim.world.get_velocity(0), Some(zero));
}

#[test]
fn too_few_params_example() {
    let out = run(&["{\"id\":\"3\",\"method\":\"velocity\",\"params\":[\"0\"]}"]);
    assert_eq!(out, vec!["{\"id\":\"3\",\"err\":\"too few params\"}".to_string()]);
}

#[test]
fn too_few_params_mutates_nothing() {
    let mut sim = Simulation::new();
    sim.ingest_line("{\"id\":\"1\",\"method\":\"spawn\",\"params\":[]}");
    sim.tick();
    let before = sim.world.get_velocity(0);
    sim.ingest_line("{\"id\":\"3\",\"method\":\"velocity\",\"params\":[\"0\"]}");
    sim.tick();
    assert_eq!(sim.world.get_velocity(0), before);
}

#[test]
fn not_json_example() {
    let out = run(&["not-json"]);
    assert_eq!(out, vec!["{\"err\":\"not an object\"}".to_string()]);
}

#[test]
fn non_object_json() {
    let out = run(&["[1,2,3]", "42", "\"hi\""]);
    assert_eq!(out, vec![
        "{\"err\":\"not an object\"}".to_string(),
        "{\"err\":\"not an object\"}".to_string(),
        "{\"err\":\"not an object\"}".to_string(),
    ]);
}

#[test]
fn missing_id_omits_id() {
    let out = run(&[
        "{\"method\":\"spawn\",\"params\":[]}",
        "{\"id\":7,\"method\":\"spawn\",\"params\":[]}",
    ]);
    assert_eq!(out, vec![
        "{\"err\":\"missing id\"}".to_string(),
        "{\"err\":\"missing id\"}".to_string(),
    ]);
}

#[test]
fn missing_method() {
    let out = run(&["{\"id\":\"a\",\"params\":[]}", "{\"id\":\"b\",\"method\":5,\"params\":[]}"]);
    assert_eq!(out, vec![
        "{\"id\":\"a\",\"err\":\"missing method\"}".to_string(),
        "{\"id\":\"b\",\"err\":\"missing method\"}".to_string(),
    ]);
}

#[test]
fn missing_or_invalid_params() {
    let out = run(&[
        "{\"id\":\"a\",\"method\":\"spawn\"}",
        "{\"id\":\"b\",\"method\":\"spawn\",\"params\":\"x\"}",
        "{\"id\":\"c\",\"method\":\"spawn\",\"params\":[\"x\",3]}",
    ]);
    assert_eq!(out, vec![
        "{\"id\":\"a\",\"err\":\"missing/invalid params\"}".to_string(),
        "{\"id\":\"b\",\"err\":\"missing/invalid params\"}".to_string(),
        "{\"id\":\"c\",\"err\":\"missing/invalid params\"}".to_string(),
    ]);
}

#[test]
fn unknown_method() {
    let out = run(&["{\"id\":\"x\",\"method\":\"despawn\",\"params\":[]}"]);
    assert_eq!(out, vec!["{\"id\":\"x\",\"err\":\"unknown method\"}".to_string()]);
}

#[test]
fn velocity_bad_numbers() {
    let out = run(&[
        "{\"id\":\"1\",\"method\":\"spawn\",\"params\":[]}",
        "{\"id\":\"2\",\"method\":\"velocity\",\"params\":[\"zero\",\"1\",\"2\"]}",
        "{\"id\":\"3\",\"method\":\"velocity\",\"params\":[\"0\",\"1.\",\"2\"]}",
        "{\"id\":\"4\",\"method\":\"velocity\",\"params\":[\"-1\",\"1\",\"2\"]}",
    ]);
    assert_eq!(out[1], "{\"id\":\"2\",\"err\":\"invalid number\"}");
    assert_eq!(out[2], "{\"id\":\"3\",\"err\":\"invalid number\"}");
    assert_eq!(out[3], "{\"id\":\"4\",\"err\":\"invalid number\"}");
}

#[test]
fn velocity_unknown_entity() {
    let out = run(&["{\"id\":\"9\",\"method\":\"velocity\",\"params\":[\"5\",\"1\",\"2\"]}"]);
    assert_eq!(out, vec!["{\"id\":\"9\",\"err\":\"unknown entity\"}".to_string()]);
}

#[test]
fn responses_keep_request_order() {
    let out = run(&[
        "{\"id\":\"1\",\"method\":\"spawn\",\"params\":[]}",
        "nonsense",
        "{\"id\":\"3\",\"method\":\"warp\",\"params\":[]}",
        "{\"id\":\"4\",\"method\":\"spawn\",\"params\":[]}",
        "{\"id\":\"5\",\"method\":\"velocity\",\"params\":[\"1\",\"0.25\",\"0\"]}",
    ]);
    assert_eq!(out, vec![
        "{\"id\":\"1\",\"entity_id\":0}".to_string(),
        "{\"err\":\"not an object\"}".to_string(),
        "{\"id\":\"3\",\"err\":\"unknown method\"}".to_string(),
        "{\"id\":\"4\",\"entity_id\":1}".to_string(),
        "{\"id\":\"5\"}".to_string(),
    ]);
}

#[test]
fn spawn_ids_count_up() {
    let mut lines: Vec<String> = Vec::new();
    for i in 0..12 {
        lines.push(format!("{{\"id\":\"{}\",\"method\":\"spawn\",\"params\":[]}}", i));
    }
    let out = process_lines(&lines);
    assert_eq!(out[11], "{\"id\":\"11\",\"entity_id\":11}");
}

#[test]
fn id_is_echoed_verbatim_with_escaping() {
    let out = run(&["{\"id\":\"a\\\"b\\\\c\",\"method\":\"nope\",\"params\":[]}"]);
    assert_eq!(out, vec!["{\"id\":\"a\\\"b\\\\c\",\"err\":\"unknown method\"}".to_string()]);
}

#[test]
fn id_with_newline_stays_one_json_line() {
    // The input's \n escape decodes to a real newline inside the id; the
    // response must re-escape it, staying a single line of valid JSON.
    let out = run(&["{\"id\":\"a\\nb\",\"method\":\"spawn\",\"params\":[]}"]);
    assert_eq!(out, vec!["{\"id\":\"a\\nb\",\"entity_id\":0}".to_string()]);
    assert!(!out[0].contains('\n'));
}

#[test]
fn id_control_characters_are_escaped() {
    let out = run(&[
        "{\"id\":\"t\\tr\\rx\",\"method\":\"nope\",\"params\":[]}",
        "{\"id\":\"x\\u0001y\\u001fz\",\"method\":\"nope\",\"params\":[]}",
    ]);
    assert_eq!(out[0], "{\"id\":\"t\\tr\\rx\",\"err\":\"unknown method\"}");
    assert_eq!(out[1], "{\"id\":\"x\\u0001y\\u001fz\",\"err\":\"unknown method\"}");
    for line in &out {
        assert!(line.chars().all(|c| c >= ' '), "a response line holds no raw control character");
    }
}

#[test]
fn spawn_ignores_params() {
    let out = run(&["{\"id\":\"1\",\"method\":\"spawn\",\"params\":[\"junk\",\"more\"]}"]);
    assert_eq!(out, vec!["{\"id\":\"1\",\"entity_id\":0}".to_string()]);
}

#[test]
fn empty_queue_is_idle_until_closed() {
    let mut sim = Simulation::new();
    assert_eq!(sim.tick(), TickOutcome::Idle);
    sim.ingest_line("{\"id\":\"1\",\"method\":\"spawn\",\"params\":[]}");
    sim.close_input();
    match sim.tick() {
        TickOutcome::Emitted(line) => assert_eq!(line, "{\"id\":\"1\",\"entity_id\":0}"),
        other => panic!("expected the queued line to drain, got {:?}", other),
    }
    assert_eq!(sim.tick(), TickOutcome::Stopped);
}
