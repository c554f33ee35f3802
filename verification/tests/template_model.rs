use postmark::api::email::TemplateModel;
use postmark::codec::ToJson;
use postmark::json::{Entry, Json};

fn entry(key: &str, value: i64) -> Entry {
    Entry { key: key.to_string(), value: Json::integer(value) }
}

#[test]
fn a_new_model_is_empty() {
    assert!(TemplateModel::new().into_inner().is_empty());
    assert!(TemplateModel::default().into_inner().is_empty());
}

#[test]
fn a_value_put_under_a_new_name_comes_last() {
    let mut model = TemplateModel::new();
    model.insert("a".to_string(), Json::integer(1));
    model.insert("b".to_string(), Json::integer(2));
    assert_eq!(model.into_inner(), vec![entry("a", 1), entry("b", 2)]);
}

#[test]
fn a_value_put_under_an_old_name_takes_its_place() {
    let mut model = TemplateModel::new();
    model.insert("a".to_string(), Json::integer(1));
    model.insert("b".to_string(), Json::integer(2));
    model.insert("a".to_string(), Json::integer(3));
    assert_eq!(model.into_inner(), vec![entry("a", 3), entry("b", 2)]);
}

#[test]
fn a_name_taken_out_is_gone() {
    let mut model = TemplateModel::new();
    model.insert("a".to_string(), Json::integer(1));
    model.insert("b".to_string(), Json::integer(2));
    model.insert("c".to_string(), Json::integer(3));
    model.remove("b");
    model.remove("missing");
    assert_eq!(model.clone().into_inner(), vec![entry("a", 1), entry("c", 3)]);
    model.remove("a");
    model.remove("c");
    assert!(model.into_inner().is_empty());
}

#[test]
fn of_two_entries_with_one_name_the_later_stays() {
    let model = TemplateModel::from_entries(&vec![entry("a", 1), entry("b", 2), entry("a", 3)]);
    assert_eq!(model.into_inner(), vec![entry("a", 3), entry("b", 2)]);
}

#[test]
fn a_model_is_written_under_its_own_name() {
    let mut model = TemplateModel::new();
    model.insert("name".to_string(), Json::Str("Ferris".to_string()));
    assert_eq!(
        String::from_utf8(model.to_json().render().unwrap()).unwrap(),
        r#"{"model":{"name":"Ferris"}}"#
    );
    assert_eq!(
        String::from_utf8(model.object().render().unwrap()).unwrap(),
        r#"{"name":"Ferris"}"#
    );
}
