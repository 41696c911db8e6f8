use rsjs::proxy::{
    axis_2d, axis_3d, cache_fn_key, cache_key, col_cache_key, gd_alive_handle, is_alive_query,
    make_cache_fn_name, rect_field, special_method, special_property, transform2d_column,
    transform3d_cell, transform3d_column, transform3d_column_write_proceeds, Axis, RectField,
    SpecialMethod, SpecialProperty, TransformCell,
};

#[test]
fn cache_keys() {
    assert_eq!(cache_key("position"), "_cache_position");
    assert_eq!(cache_fn_key("queue_free"), "_cache_fn_queue_free");
    assert_eq!(make_cache_fn_name("queue_free"), "_cache_fn_queue_free");
    assert_eq!(col_cache_key("origin"), "_col_cache_origin");
    assert_ne!(cache_key("a"), cache_key("b"));
}

#[test]
fn alive_check() {
    assert!(gd_alive_handle(true).is_ok());
    assert_eq!(
        gd_alive_handle(false).unwrap_err(),
        "Cannot read property: Godot Node instance is already deleted or invalid!"
    );
    assert!(is_alive_query("is_alive"));
    assert!(!is_alive_query("is_alive_"));
}

#[test]
fn special_properties() {
    assert!(matches!(special_property("name"), Some(SpecialProperty::Name)));
    assert!(matches!(special_property("class_type"), Some(SpecialProperty::ClassType)));
    assert!(matches!(special_property("id"), Some(SpecialProperty::Id)));
    assert!(matches!(special_property("parent"), Some(SpecialProperty::Parent)));
    assert!(special_property("position").is_none());
    assert!(special_property("Name").is_none());
}

#[test]
fn special_methods() {
    assert!(matches!(special_method("is_class"), Some(SpecialMethod::IsClass)));
    assert!(matches!(special_method("connect"), Some(SpecialMethod::Connect)));
    assert!(special_method("disconnect").is_none());
}

#[test]
fn axes_and_fields() {
    assert!(axis_2d("x") == Some(Axis::X));
    assert!(axis_2d("y") == Some(Axis::Y));
    assert!(axis_2d("z").is_none());
    assert!(axis_3d("z") == Some(Axis::Z));
    assert!(axis_3d("w").is_none());
    assert!(rect_field("width") == Some(RectField::Width));
    assert!(rect_field("height") == Some(RectField::Height));
    assert!(rect_field("x") == Some(RectField::X));
    assert!(rect_field("size").is_none());
}

#[test]
fn transform_columns() {
    assert_eq!(transform2d_column("x"), Some(0));
    assert_eq!(transform2d_column("y"), Some(1));
    assert_eq!(transform2d_column("origin"), Some(2));
    assert_eq!(transform2d_column("z"), None);
    assert_eq!(transform3d_column("z"), Some(2));
    assert_eq!(transform3d_column("origin"), Some(3));
    assert_eq!(transform3d_column("basis"), None);
}

#[test]
fn transform3d_cells() {
    assert!(transform3d_cell(0, Axis::Y) == TransformCell::Basis { row: 1, col: 0 });
    assert!(transform3d_cell(2, Axis::X) == TransformCell::Basis { row: 0, col: 2 });
    assert!(transform3d_cell(3, Axis::Z) == TransformCell::Origin { axis: 2 });
}

#[test]
fn column_write_only_proceeds_when_liveness_check_fails() {
    assert!(!transform3d_column_write_proceeds(true));
    assert!(transform3d_column_write_proceeds(false));
}
