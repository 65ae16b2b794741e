use nacos_console::form::{Form, FormKind};
use nacos_console::keys::KeyEvent;

#[test]
fn add_form_has_three_empty_fields() {
    let f = Form::new_add();
    assert_eq!(f.fields.len(), 3);
    assert_eq!(f.focus_index, 0);
    assert_eq!(f.field_text(0), "");
    assert_eq!(f.field_text(1), "");
    assert_eq!(f.field_text(2), "");
}

#[test]
fn edit_form_is_prefilled() {
    let f = Form::new_edit("some-name", "some description");
    assert_eq!(f.fields.len(), 2);
    assert_eq!(f.focus_index, 0);
    assert_eq!(f.field_text(0), "some-name");
    assert_eq!(f.field_text(1), "some description");
}

#[test]
fn focus_cycles_over_three_fields() {
    let mut f = Form::new_add();
    let start = f.focus_index;
    f.advance_focus();
    assert_eq!(f.focus_index, 1);
    f.advance_focus();
    assert_eq!(f.focus_index, 2);
    f.advance_focus();
    assert_eq!(f.focus_index, start);
}

#[test]
fn focus_cycles_over_two_fields() {
    let mut f = Form::new_edit("n", "d");
    let start = f.focus_index;
    f.advance_focus();
    assert_eq!(f.focus_index, 1);
    f.advance_focus();
    assert_eq!(f.focus_index, start);
}

#[test]
fn route_input_edits_the_focused_field_only() {
    let mut f = Form::new_add();
    f.route_input(KeyEvent::Char('i'));
    f.advance_focus();
    f.route_input(KeyEvent::Char('n'));
    assert_eq!(f.field_text(0), "i");
    assert_eq!(f.field_text(1), "n");
    assert_eq!(f.field_text(2), "");
}

#[test]
fn prefilled_edit_appends_at_end() {
    let mut f = Form::new_edit("ab", "");
    f.route_input(KeyEvent::Char('c'));
    assert_eq!(f.field_text(0), "abc");
}

#[test]
fn collect_pairs_labels_with_values() {
    let mut f = Form::new_add();
    f.route_input(KeyEvent::Char('7'));
    f.advance_focus();
    f.route_input(KeyEvent::Char('x'));
    let pairs = f.collect();
    assert_eq!(pairs.len(), 3);
    assert_eq!(pairs[0].0, "ns_id");
    assert_eq!(pairs[0].1, "7");
    assert_eq!(pairs[1].0, "ns_name");
    assert_eq!(pairs[1].1, "x");
    assert_eq!(pairs[2].0, "ns_desc");
    assert_eq!(pairs[2].1, "");
}

#[test]
fn edit_form_labels() {
    let f = Form::new_edit("n", "d");
    let pairs = f.collect();
    assert_eq!(pairs.len(), 2);
    assert_eq!(pairs[0].0, "ns_name");
    assert_eq!(pairs[1].0, "ns_desc");
}

#[test]
fn field_count_matches_kind() {
    assert_eq!(FormKind::Add.field_count(), 3);
    assert_eq!(FormKind::Edit.field_count(), 2);
}
