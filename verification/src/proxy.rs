use vstd::prelude::*;

use crate::text::text_eq;

verus! {

/// Key under which a node proxy caches the value made for property `prop`.
pub open spec fn cache_key_text(prop: Seq<char>) -> Seq<char> {
    "_cache_"@ + prop
}

/// Key under which a node proxy caches the function made for method `prop`.
pub open spec fn cache_fn_key_text(prop: Seq<char>) -> Seq<char> {
    "_cache_fn_"@ + prop
}

/// Key under which a transform proxy caches the proxy of column `prop`.
pub open spec fn col_cache_key_text(prop: Seq<char>) -> Seq<char> {
    "_col_cache_"@ + prop
}

/// Different names get different cache keys, of each kind.
pub proof fn law_cache_keys_injective(p1: Seq<char>, p2: Seq<char>)
    ensures
        cache_key_text(p1) == cache_key_text(p2) ==> p1 == p2,
        cache_fn_key_text(p1) == cache_fn_key_text(p2) ==> p1 == p2,
        col_cache_key_text(p1) == col_cache_key_text(p2) ==> p1 == p2,
{
    lemma_prefix_cancel("_cache_"@, p1, p2);
    lemma_prefix_cancel("_cache_fn_"@, p1, p2);
    lemma_prefix_cancel("_col_cache_"@, p1, p2);
}

proof fn lemma_prefix_cancel(pre: Seq<char>, p1: Seq<char>, p2: Seq<char>)
    ensures
        pre + p1 == pre + p2 ==> p1 == p2,
{
    if pre + p1 == pre + p2 {
        assert((pre + p1).skip(pre.len() as int) =~= p1);
        assert((pre + p2).skip(pre.len() as int) =~= p2);
    }
}

fn prefixed(prefix: &str, prop: &str) -> (r: String)
    ensures
        r@ == prefix@ + prop@,
{
    let mut r = String::from_str(prefix);
    r.append(prop);
    r
}

/// The cache key of a property value: `_cache_` followed by the property name.
pub fn cache_key(prop: &str) -> (r: String)
    ensures
        r@ == cache_key_text(prop@),
{
    prefixed("_cache_", prop)
}

/// The cache key of a method function: `_cache_fn_` followed by the method name.
pub fn cache_fn_key(prop: &str) -> (r: String)
    ensures
        r@ == cache_fn_key_text(prop@),
{
    prefixed("_cache_fn_", prop)
}

/// The cache key of a column proxy: `_col_cache_` followed by the column name.
pub fn col_cache_key(prop: &str) -> (r: String)
    ensures
        r@ == col_cache_key_text(prop@),
{
    prefixed("_col_cache_", prop)
}

/// The name under which a node proxy caches the function it made for the
/// method `prop`.
pub fn make_cache_fn_name(prop: &str) -> (r: String)
    ensures
        r@ == cache_fn_key_text(prop@),
{
    prefixed("_cache_fn_", prop)
}

/// The text of the exception thrown when a proxy is used after its Godot
/// node was freed.
pub open spec fn dead_node_text() -> Seq<char> {
    "Cannot read property: Godot Node instance is already deleted or invalid!"@
}

/// Checks that the node behind a proxy is still alive; when it is not, the
/// error holds the message of the exception to throw.
pub fn gd_alive_handle(alive: bool) -> (r: Result<(), String>)
    ensures
        alive ==> r is Ok,
        !alive ==> r is Err && r->Err_0@ == dead_node_text(),
{
    if !alive {
        return Err(String::from_str(
            "Cannot read property: Godot Node instance is already deleted or invalid!",
        ));
    }
    Ok(())
}

/// The property through which scripts ask whether a proxy's node is alive.
pub fn is_alive_query(prop: &str) -> (b: bool)
    ensures
        b == (prop@ == "is_alive"@),
{
    text_eq(prop, "is_alive")
}

/// Node properties that a node proxy answers itself instead of asking Godot.
#[derive(PartialEq, Eq, Structural, Clone, Copy)]
pub enum SpecialProperty {
    /// `name`: the node's name.
    Name,
    /// `class_type`: the node's Godot class.
    ClassType,
    /// `id`: the node's instance id.
    Id,
    /// `parent`: a proxy of the parent node, or `null`.
    Parent,
}

/// The special property named `prop`, if it is one.
pub open spec fn special_property_of(prop: Seq<char>) -> Option<SpecialProperty> {
    if prop == "name"@ {
        Some(SpecialProperty::Name)
    } else if prop == "class_type"@ {
        Some(SpecialProperty::ClassType)
    } else if prop == "id"@ {
        Some(SpecialProperty::Id)
    } else if prop == "parent"@ {
        Some(SpecialProperty::Parent)
    } else {
        None
    }
}

/// Which special property, if any, the property name `prop` asks for.
pub fn special_property(prop: &str) -> (r: Option<SpecialProperty>)
    ensures
        r == special_property_of(prop@),
{
    if text_eq(prop, "name") {
        Some(SpecialProperty::Name)
    } else if text_eq(prop, "class_type") {
        Some(SpecialProperty::ClassType)
    } else if text_eq(prop, "id") {
        Some(SpecialProperty::Id)
    } else if text_eq(prop, "parent") {
        Some(SpecialProperty::Parent)
    } else {
        None
    }
}

/// Node methods that a node proxy implements itself instead of calling Godot.
pub enum SpecialMethod {
    /// `is_class(name)`: whether the node is of (or inherits) a Godot class.
    IsClass,
    /// `connect(signal, callback)`: connects a script callback to a node signal.
    Connect,
}

/// The special method named `prop`, if it is one.
pub open spec fn special_method_of(prop: Seq<char>) -> Option<SpecialMethod> {
    if prop == "is_class"@ {
        Some(SpecialMethod::IsClass)
    } else if prop == "connect"@ {
        Some(SpecialMethod::Connect)
    } else {
        None
    }
}

/// Which special method, if any, the property name `prop` asks for.
pub fn special_method(prop: &str) -> (r: Option<SpecialMethod>)
    ensures
        r == special_method_of(prop@),
{
    if text_eq(prop, "is_class") {
        Some(SpecialMethod::IsClass)
    } else if text_eq(prop, "connect") {
        Some(SpecialMethod::Connect)
    } else {
        None
    }
}

/// A coordinate axis.
#[derive(PartialEq, Eq, Structural)]
pub enum Axis {
    X,
    Y,
    Z,
}

/// The axis that a 2D component name (`x` or `y`) stands for.
pub open spec fn axis_2d_of(field: Seq<char>) -> Option<Axis> {
    if field == "x"@ {
        Some(Axis::X)
    } else if field == "y"@ {
        Some(Axis::Y)
    } else {
        None
    }
}

/// The axis that a 3D component name (`x`, `y` or `z`) stands for.
pub open spec fn axis_3d_of(field: Seq<char>) -> Option<Axis> {
    if field == "z"@ {
        Some(Axis::Z)
    } else {
        axis_2d_of(field)
    }
}

/// The component of a 2D vector (or 2D transform column) that `field` names.
pub fn axis_2d(field: &str) -> (r: Option<Axis>)
    ensures
        r == axis_2d_of(field@),
{
    if text_eq(field, "x") {
        Some(Axis::X)
    } else if text_eq(field, "y") {
        Some(Axis::Y)
    } else {
        None
    }
}

/// The component of a 3D vector (or 3D transform column) that `field` names.
pub fn axis_3d(field: &str) -> (r: Option<Axis>)
    ensures
        r == axis_3d_of(field@),
{
    if text_eq(field, "z") {
        Some(Axis::Z)
    } else {
        axis_2d(field)
    }
}

/// The fields of a rectangle proxy.
#[derive(PartialEq, Eq, Structural)]
pub enum RectField {
    /// `x`: the position's x.
    X,
    /// `y`: the position's y.
    Y,
    /// `width`: the size's x.
    Width,
    /// `height`: the size's y.
    Height,
}

/// The rectangle field that `prop` names.
pub open spec fn rect_field_of(prop: Seq<char>) -> Option<RectField> {
    if prop == "x"@ {
        Some(RectField::X)
    } else if prop == "y"@ {
        Some(RectField::Y)
    } else if prop == "width"@ {
        Some(RectField::Width)
    } else if prop == "height"@ {
        Some(RectField::Height)
    } else {
        None
    }
}

/// Which field of a rectangle the proxy property `prop` reads or writes.
pub fn rect_field(prop: &str) -> (r: Option<RectField>)
    ensures
        r == rect_field_of(prop@),
{
    if text_eq(prop, "x") {
        Some(RectField::X)
    } else if text_eq(prop, "y") {
        Some(RectField::Y)
    } else if text_eq(prop, "width") {
        Some(RectField::Width)
    } else if text_eq(prop, "height") {
        Some(RectField::Height)
    } else {
        None
    }
}

/// The column of a 2D transform that `prop` names: `x` is 0, `y` is 1 and
/// `origin` is 2.
pub open spec fn transform2d_column_of(prop: Seq<char>) -> Option<u8> {
    if prop == "x"@ {
        Some(0u8)
    } else if prop == "y"@ {
        Some(1u8)
    } else if prop == "origin"@ {
        Some(2u8)
    } else {
        None
    }
}

/// The column of a 3D transform that `prop` names: `x`, `y` and `z` are the
/// basis columns 0, 1 and 2, `origin` is 3.
pub open spec fn transform3d_column_of(prop: Seq<char>) -> Option<u8> {
    if prop == "x"@ {
        Some(0u8)
    } else if prop == "y"@ {
        Some(1u8)
    } else if prop == "z"@ {
        Some(2u8)
    } else if prop == "origin"@ {
        Some(3u8)
    } else {
        None
    }
}

/// Which column of a 2D transform the proxy property `prop` stands for.
pub fn transform2d_column(prop: &str) -> (r: Option<u8>)
    ensures
        r == transform2d_column_of(prop@),
{
    if text_eq(prop, "x") {
        Some(0)
    } else if text_eq(prop, "y") {
        Some(1)
    } else if text_eq(prop, "origin") {
        Some(2)
    } else {
        None
    }
}

/// Which column of a 3D transform the proxy property `prop` stands for.
pub fn transform3d_column(prop: &str) -> (r: Option<u8>)
    ensures
        r == transform3d_column_of(prop@),
{
    if text_eq(prop, "x") {
        Some(0)
    } else if text_eq(prop, "y") {
        Some(1)
    } else if text_eq(prop, "z") {
        Some(2)
    } else if text_eq(prop, "origin") {
        Some(3)
    } else {
        None
    }
}

/// The name of a coordinate axis: `x`, `y` or `z`.
pub open spec fn axis_name(a: Axis) -> Seq<char> {
    match a {
        Axis::X => "x"@,
        Axis::Y => "y"@,
        Axis::Z => "z"@,
    }
}

/// The property name of a rectangle field: `x` and `y` for the position,
/// `width` and `height` for the size.
pub open spec fn rect_field_name(f: RectField) -> Seq<char> {
    match f {
        RectField::X => "x"@,
        RectField::Y => "y"@,
        RectField::Width => "width"@,
        RectField::Height => "height"@,
    }
}

/// The name of a special node property.
pub open spec fn special_property_name(p: SpecialProperty) -> Seq<char> {
    match p {
        SpecialProperty::Name => "name"@,
        SpecialProperty::ClassType => "class_type"@,
        SpecialProperty::Id => "id"@,
        SpecialProperty::Parent => "parent"@,
    }
}

/// The name of a special node method.
pub open spec fn special_method_name(m: SpecialMethod) -> Seq<char> {
    match m {
        SpecialMethod::IsClass => "is_class"@,
        SpecialMethod::Connect => "connect"@,
    }
}

/// The property name of column `c` of a transform whose origin is column
/// `origin`: the basis columns are named after their axes, then `origin`.
pub open spec fn transform_column_name(c: u8, origin: u8) -> Seq<char> {
    if c == origin {
        "origin"@
    } else if c == 0 {
        "x"@
    } else if c == 1 {
        "y"@
    } else {
        "z"@
    }
}

proof fn lemma_property_names_distinct()
    ensures
        "x"@ != "y"@,
        "x"@ != "z"@,
        "y"@ != "z"@,
        "x"@ != "width"@,
        "x"@ != "height"@,
        "y"@ != "width"@,
        "y"@ != "height"@,
        "width"@ != "height"@,
        "x"@ != "origin"@,
        "y"@ != "origin"@,
        "z"@ != "origin"@,
        "name"@ != "class_type"@,
        "name"@ != "id"@,
        "name"@ != "parent"@,
        "class_type"@ != "id"@,
        "class_type"@ != "parent"@,
        "id"@ != "parent"@,
        "is_class"@ != "connect"@,
{
    reveal_strlit("x");
    reveal_strlit("y");
    reveal_strlit("z");
    reveal_strlit("width");
    reveal_strlit("height");
    reveal_strlit("origin");
    reveal_strlit("name");
    reveal_strlit("class_type");
    reveal_strlit("id");
    reveal_strlit("parent");
    reveal_strlit("is_class");
    reveal_strlit("connect");
    assert("x"@[0] != "y"@[0]);
    assert("x"@[0] != "z"@[0]);
    assert("y"@[0] != "z"@[0]);
    assert("width"@[0] != "height"@[0]);
    assert("name"@[0] != "class_type"@[0]);
    assert("name"@[0] != "id"@[0]);
    assert("name"@[0] != "parent"@[0]);
    assert("class_type"@[0] != "id"@[0]);
    assert("class_type"@[0] != "parent"@[0]);
    assert("id"@[0] != "parent"@[0]);
    assert("is_class"@[0] != "connect"@[0]);
}

/// A property of a rectangle proxy reads and writes exactly the field that
/// it names: `x` the position's x, `y` the position's y, `width` the size's
/// x, `height` the size's y; every other name is no field.
pub proof fn law_rect_field_named(prop: Seq<char>, f: RectField)
    ensures
        rect_field_of(prop) == Some(f) <==> prop == rect_field_name(f),
        rect_field_of(prop) is None <==> (prop != "x"@ && prop != "y"@ && prop != "width"@
            && prop != "height"@),
{
    lemma_property_names_distinct();
}

/// A component name selects exactly the axis it names, in 2D (`x`, `y`) and
/// in 3D (`x`, `y`, `z`).
pub proof fn law_axis_named(field: Seq<char>, a: Axis)
    ensures
        axis_3d_of(field) == Some(a) <==> field == axis_name(a),
        axis_2d_of(field) == Some(a) <==> (field == axis_name(a) && a != Axis::Z),
{
    lemma_property_names_distinct();
}

/// A transform column property selects exactly the column it names: in 2D
/// `x` is 0, `y` is 1 and `origin` is 2; in 3D `x`, `y`, `z` are 0 to 2 and
/// `origin` is 3.
pub proof fn law_transform_column_named(prop: Seq<char>, c: u8)
    ensures
        transform2d_column_of(prop) == Some(c) <==> (c <= 2 && prop == transform_column_name(c, 2)),
        transform3d_column_of(prop) == Some(c) <==> (c <= 3 && prop == transform_column_name(c, 3)),
{
    lemma_property_names_distinct();
}

/// A special property or method is asked for by exactly its own name.
pub proof fn law_special_members_named(prop: Seq<char>, p: SpecialProperty, m: SpecialMethod)
    ensures
        special_property_of(prop) == Some(p) <==> prop == special_property_name(p),
        special_method_of(prop) == Some(m) <==> prop == special_method_name(m),
{
    lemma_property_names_distinct();
}

/// An entry of a 3D transform: a basis entry by row and column, or a
/// component of the origin.
#[derive(PartialEq, Eq, Structural)]
pub enum TransformCell {
    Basis { row: u8, col: u8 },
    Origin { axis: u8 },
}

/// The index of an axis: x is 0, y is 1, z is 2.
pub open spec fn axis_index(a: Axis) -> u8 {
    match a {
        Axis::X => 0u8,
        Axis::Y => 1u8,
        Axis::Z => 2u8,
    }
}

/// The entry that component `axis` of column `col` of a 3D transform is:
/// for a basis column (0 to 2), the basis entry in row `axis` of that
/// column; for the origin column (3 and above), the origin's component.
pub open spec fn transform3d_cell_of(col: u8, axis: Axis) -> TransformCell {
    if col < 3 {
        TransformCell::Basis { row: axis_index(axis), col }
    } else {
        TransformCell::Origin { axis: axis_index(axis) }
    }
}

/// The transform entry that a column proxy reads and writes for component
/// `axis` of column `col`.
pub fn transform3d_cell(col: u8, axis: Axis) -> (c: TransformCell)
    ensures
        c == transform3d_cell_of(col, axis),
{
    let row: u8 = match axis {
        Axis::X => 0,
        Axis::Y => 1,
        Axis::Z => 2,
    };
    if col < 3 {
        TransformCell::Basis { row, col }
    } else {
        TransformCell::Origin { axis: row }
    }
}

/// Whether a 3D transform column proxy goes on with a write, given whether
/// its node is alive. The write proceeds only when the liveness check fails:
/// for a live node the setter returns `false` without writing.
pub fn transform3d_column_write_proceeds(alive: bool) -> (b: bool)
    ensures
        b == !alive,
{
    gd_alive_handle(alive).is_err()
}


/// What a value proxy does with a property read once it knows whether its
/// node is alive.
#[derive(PartialEq, Eq, Structural)]
pub enum AliveGate {
    /// The read asks for `is_alive`: answer with the liveness.
    Report(bool),
    /// The node is gone: throw the dead-node exception.
    Dead,
    /// Go on and read the node.
    Proceed,
}

/// How a value proxy treats a read of `prop`, given whether its node is alive.
pub open spec fn alive_gate_of(prop: Seq<char>, alive: bool) -> AliveGate {
    if prop == "is_alive"@ {
        AliveGate::Report(alive)
    } else if !alive {
        AliveGate::Dead
    } else {
        AliveGate::Proceed
    }
}

/// Decides how a value proxy treats a read of `prop` given the liveness of
/// its node: `is_alive` is always answered, any other read of a dead node
/// throws, and reads of a live node go on.
pub fn alive_gate(prop: &str, alive: bool) -> (g: AliveGate)
    ensures
        g == alive_gate_of(prop@, alive),
{
    if is_alive_query(prop) {
        AliveGate::Report(alive)
    } else if !alive {
        AliveGate::Dead
    } else {
        AliveGate::Proceed
    }
}

/// A fact that a node proxy's property read asks for, in the order asked.
#[derive(PartialEq, Eq, Structural, Clone, Copy)]
pub enum GetQuery {
    /// Does the proxy target hold the property itself?
    OwnKey,
    /// Is the Godot node still alive?
    Alive,
    /// Is there a readable cached value for the property?
    Cached,
    /// Does the node property hold a `Vector2`?
    IsVector2,
    /// Does the node have a method of that name?
    HasMethod,
}

/// What a node proxy's property read does next.
#[derive(PartialEq, Eq, Structural)]
pub enum GetAction {
    /// Ask for another fact.
    Ask(GetQuery),
    /// Return the target's own property.
    ReturnOwn,
    /// Return whether the node is alive.
    ReturnAlive(bool),
    /// Throw the dead-node exception.
    ThrowDead,
    /// Return the cached value.
    ReturnCached,
    /// Answer a special property.
    Special(SpecialProperty),
    /// Make (and cache) a live proxy of the node's `Vector2` property.
    Vector2Proxy,
    /// Return (and cache) a function calling the method.
    Method,
    /// Convert the node property's value.
    ReadValue,
}

/// One step of a node proxy's read of `prop`: the next action once the
/// fact `asked` has the value `answer`.
pub open spec fn get_step_of(prop: Seq<char>, asked: GetQuery, answer: bool) -> GetAction {
    match asked {
        GetQuery::OwnKey => if answer {
            GetAction::ReturnOwn
        } else {
            GetAction::Ask(GetQuery::Alive)
        },
        GetQuery::Alive => if prop == "is_alive"@ {
            GetAction::ReturnAlive(answer)
        } else if !answer {
            GetAction::ThrowDead
        } else {
            GetAction::Ask(GetQuery::Cached)
        },
        GetQuery::Cached => if answer {
            GetAction::ReturnCached
        } else {
            match special_property_of(prop) {
                Some(p) => GetAction::Special(p),
                None => GetAction::Ask(GetQuery::IsVector2),
            }
        },
        GetQuery::IsVector2 => if answer {
            GetAction::Vector2Proxy
        } else {
            GetAction::Ask(GetQuery::HasMethod)
        },
        GetQuery::HasMethod => if answer {
            GetAction::Method
        } else {
            GetAction::ReadValue
        },
    }
}

/// The first fact a node proxy's property read asks for.
pub fn get_trap_start() -> (q: GetQuery)
    ensures
        q == GetQuery::OwnKey,
{
    GetQuery::OwnKey
}

/// Decides the next step of a node proxy's read of `prop` from the answer
/// to the fact it asked last. The facts are asked in the order own property,
/// liveness, cache, `Vector2` property, method; the read ends as soon as
/// one of them settles it.
pub fn get_trap_step(prop: &str, asked: GetQuery, answer: bool) -> (a: GetAction)
    ensures
        a == get_step_of(prop@, asked, answer),
{
    match asked {
        GetQuery::OwnKey => if answer {
            GetAction::ReturnOwn
        } else {
            GetAction::Ask(GetQuery::Alive)
        },
        GetQuery::Alive => if is_alive_query(prop) {
            GetAction::ReturnAlive(answer)
        } else if !answer {
            GetAction::ThrowDead
        } else {
            GetAction::Ask(GetQuery::Cached)
        },
        GetQuery::Cached => if answer {
            GetAction::ReturnCached
        } else {
            match special_property(prop) {
                Some(p) => GetAction::Special(p),
                None => GetAction::Ask(GetQuery::IsVector2),
            }
        },
        GetQuery::IsVector2 => if answer {
            GetAction::Vector2Proxy
        } else {
            GetAction::Ask(GetQuery::HasMethod)
        },
        GetQuery::HasMethod => if answer {
            GetAction::Method
        } else {
            GetAction::ReadValue
        },
    }
}

/// The answers a node and its proxy target give to the facts of a read.
pub struct GetFacts {
    pub own_key: bool,
    pub alive: bool,
    pub cached: bool,
    pub is_vector2: bool,
    pub has_method: bool,
}

/// The answer that `facts` give to `q`.
pub open spec fn answer_of(facts: GetFacts, q: GetQuery) -> bool {
    match q {
        GetQuery::OwnKey => facts.own_key,
        GetQuery::Alive => facts.alive,
        GetQuery::Cached => facts.cached,
        GetQuery::IsVector2 => facts.is_vector2,
        GetQuery::HasMethod => facts.has_method,
    }
}

/// A whole read of `prop`, from the fact `q` on, with at most `fuel` more
/// steps: the facts asked, in order, and the action it ends with.
pub open spec fn run_get_from(prop: Seq<char>, facts: GetFacts, q: GetQuery, fuel: nat) -> (
    Seq<GetQuery>,
    GetAction,
)
    decreases fuel,
{
    let a = get_step_of(prop, q, answer_of(facts, q));
    match a {
        GetAction::Ask(next) => if fuel == 0 {
            (seq![q], a)
        } else {
            let (rest, end) = run_get_from(prop, facts, next, (fuel - 1) as nat);
            (seq![q] + rest, end)
        },
        _ => (seq![q], a),
    }
}

/// A whole read of `prop` given the facts.
pub open spec fn run_get(prop: Seq<char>, facts: GetFacts) -> (Seq<GetQuery>, GetAction) {
    run_get_from(prop, facts, GetQuery::OwnKey, 4)
}

/// A read always ends in an answer (never waiting for a fact). For a node
/// that is gone, no Godot property or method of it is consulted: the read
/// ends with the target's own property, the `is_alive` answer, or the
/// dead-node exception. And `is_alive` is answered whatever the node's state,
/// unless the target holds a property of that name itself.
pub proof fn law_get_trap(prop: Seq<char>, facts: GetFacts)
    ensures
        !(run_get(prop, facts).1 is Ask),
        !facts.alive ==> !run_get(prop, facts).0.contains(GetQuery::IsVector2)
            && !run_get(prop, facts).0.contains(GetQuery::HasMethod)
            && !run_get(prop, facts).0.contains(GetQuery::Cached),
        !facts.alive && !facts.own_key && prop != "is_alive"@ ==> run_get(prop, facts).1
            == GetAction::ThrowDead,
        prop == "is_alive"@ && !facts.own_key ==> run_get(prop, facts).1 == GetAction::ReturnAlive(
            facts.alive,
        ),
{
    reveal_with_fuel(run_get_from, 6);
    let r = run_get(prop, facts);
    if !facts.alive {
        assert(!r.0.contains(GetQuery::IsVector2)) by {
            if r.0.contains(GetQuery::IsVector2) {
                let k = choose|k: int| 0 <= k < r.0.len() && r.0[k] == GetQuery::IsVector2;
            }
        }
        assert(!r.0.contains(GetQuery::HasMethod)) by {
            if r.0.contains(GetQuery::HasMethod) {
                let k = choose|k: int| 0 <= k < r.0.len() && r.0[k] == GetQuery::HasMethod;
            }
        }
        assert(!r.0.contains(GetQuery::Cached)) by {
            if r.0.contains(GetQuery::Cached) {
                let k = choose|k: int| 0 <= k < r.0.len() && r.0[k] == GetQuery::Cached;
            }
        }
    }
}

/// What a node proxy does with a property write.
#[derive(PartialEq, Eq, Structural)]
pub enum SetAction {
    /// Ask whether the node property holds a `Vector2`.
    AskIsVector2,
    /// The node is gone: report the dead-node error and refuse.
    RefuseDead,
    /// `Vector2` properties are changed through their own proxies: report
    /// that the write is forbidden and refuse.
    RefuseVector2,
    /// Convert the value and assign it to the node property.
    Assign,
}

/// The first decision of a write: only a live node is written to.
pub fn set_trap_on_alive(alive: bool) -> (a: SetAction)
    ensures
        a == (if alive { SetAction::AskIsVector2 } else { SetAction::RefuseDead }),
{
    if alive {
        SetAction::AskIsVector2
    } else {
        SetAction::RefuseDead
    }
}

/// The second decision of a write to a live node: `Vector2` properties are
/// not assigned.
pub fn set_trap_on_vector2(is_vector2: bool) -> (a: SetAction)
    ensures
        a == (if is_vector2 { SetAction::RefuseVector2 } else { SetAction::Assign }),
{
    if is_vector2 {
        SetAction::RefuseVector2
    } else {
        SetAction::Assign
    }
}

} // verus!
