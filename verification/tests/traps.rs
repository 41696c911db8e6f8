use rsjs::proxy::{
    alive_gate, get_trap_start, get_trap_step, set_trap_on_alive, set_trap_on_vector2, AliveGate,
    GetAction, GetQuery, SetAction, SpecialProperty,
};

struct Facts {
    own_key: bool,
    alive: bool,
    cached: bool,
    is_vector2: bool,
    has_method: bool,
}

fn run(prop: &str, f: &Facts) -> (Vec<GetQuery>, GetAction) {
    let mut asked = get_trap_start();
    let mut seen = Vec::new();
    loop {
        seen.push(asked);
        let answer = match asked {
            GetQuery::OwnKey => f.own_key,
            GetQuery::Alive => f.alive,
            GetQuery::Cached => f.cached,
            GetQuery::IsVector2 => f.is_vector2,
            GetQuery::HasMethod => f.has_method,
        };
        match get_trap_step(prop, asked, answer) {
            GetAction::Ask(next) => asked = next,
            end => return (seen, end),
        }
    }
}

fn facts(own_key: bool, alive: bool, cached: bool, is_vector2: bool, has_method: bool) -> Facts {
    Facts { own_key, alive, cached, is_vector2, has_method }
}

#[test]
fn get_trap_own_property_first() {
    let (seen, end) = run("position", &facts(true, false, true, true, true));
    assert!(end == GetAction::ReturnOwn);
    assert!(seen == vec![GetQuery::OwnKey]);
}

#[test]
fn get_trap_is_alive_on_dead_node() {
    let (seen, end) = run("is_alive", &facts(false, false, false, false, false));
    assert!(end == GetAction::ReturnAlive(false));
    assert!(seen == vec![GetQuery::OwnKey, GetQuery::Alive]);
    let (_, end) = run("is_alive", &facts(false, true, false, false, false));
    assert!(end == GetAction::ReturnAlive(true));
}

#[test]
fn get_trap_dead_node_throws_before_godot_reads() {
    let (seen, end) = run("position", &facts(false, false, true, true, true));
    assert!(end == GetAction::ThrowDead);
    assert!(seen == vec![GetQuery::OwnKey, GetQuery::Alive]);
}

#[test]
fn get_trap_cache_then_special_then_node() {
    assert!(run("position", &facts(false, true, true, true, true)).1 == GetAction::ReturnCached);
    assert!(run("name", &facts(false, true, false, true, true)).1 == GetAction::Special(SpecialProperty::Name));
    assert!(run("parent", &facts(false, true, false, false, false)).1 == GetAction::Special(SpecialProperty::Parent));
    assert!(run("position", &facts(false, true, false, true, true)).1 == GetAction::Vector2Proxy);
    assert!(run("queue_free", &facts(false, true, false, false, true)).1 == GetAction::Method);
    let (seen, end) = run("health", &facts(false, true, false, false, false));
    assert!(end == GetAction::ReadValue);
    assert_eq!(seen.len(), 5);
}

#[test]
fn set_trap_decisions() {
    assert!(set_trap_on_alive(false) == SetAction::RefuseDead);
    assert!(set_trap_on_alive(true) == SetAction::AskIsVector2);
    assert!(set_trap_on_vector2(true) == SetAction::RefuseVector2);
    assert!(set_trap_on_vector2(false) == SetAction::Assign);
}

#[test]
fn value_proxy_gate() {
    assert!(alive_gate("is_alive", false) == AliveGate::Report(false));
    assert!(alive_gate("is_alive", true) == AliveGate::Report(true));
    assert!(alive_gate("x", false) == AliveGate::Dead);
    assert!(alive_gate("x", true) == AliveGate::Proceed);
}
