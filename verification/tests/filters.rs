use aider_script::filters::{CamelFilter, KebabFilter, PascalFilter, SnakeFilter};

#[test]
fn test_kebab_filter() {
    assert_eq!(KebabFilter::apply("myQueryName"), "my-query-name");
}

#[test]
fn test_pascal_filter() {
    assert_eq!(PascalFilter::apply("myQueryName"), "MyQueryName");
}

#[test]
fn test_camel_filter() {
    assert_eq!(CamelFilter::apply("myQueryName"), "myQueryName");
    assert_eq!(CamelFilter::apply("MyQueryName"), "myQueryName");
}

#[test]
fn test_snake_filter() {
    assert_eq!(SnakeFilter::apply("myQueryName"), "my_query_name");
}

#[test]
fn test_filters_on_string_values() {
    let value = tera::Value::String("myQueryName".to_string());

    assert_eq!(
        KebabFilter::apply_value(&value),
        tera::Value::String("my-query-name".to_string())
    );
    assert_eq!(
        PascalFilter::apply_value(&value),
        tera::Value::String("MyQueryName".to_string())
    );
    assert_eq!(
        CamelFilter::apply_value(&value),
        tera::Value::String("myQueryName".to_string())
    );
    assert_eq!(
        SnakeFilter::apply_value(&value),
        tera::Value::String("my_query_name".to_string())
    );
}

#[test]
fn test_filters_pass_non_strings_through() {
    let value = tera::Value::Bool(true);

    assert_eq!(KebabFilter::apply_value(&value), tera::Value::Bool(true));
    assert_eq!(PascalFilter::apply_value(&value), tera::Value::Bool(true));
    assert_eq!(CamelFilter::apply_value(&value), tera::Value::Bool(true));
    assert_eq!(SnakeFilter::apply_value(&value), tera::Value::Bool(true));
}
