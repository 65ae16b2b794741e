//! An ordered group of text fields bound to one entity, with a focus.
//!
//! A [`Form`] exists only while a screen that takes input is active. It is
//! tagged with the kind of entity operation it serves: adding a namespace
//! (three fields: id, name, description) or editing one (two fields: name,
//! description). The tag fixes the field count and the field labels, so the
//! mapping from field to remote-call parameter is explicit.

use vstd::prelude::*;
use vstd::string::*;

use crate::editor::{field_step, FieldView, TextField};
use crate::keys::KeyEvent;

verus! {

/// Which entity operation a form serves.
#[derive(Clone, Copy, PartialEq, Eq, Debug)]
pub enum FormKind {
    /// Creating a namespace: fields id, name, description.
    Add,
    /// Editing a namespace: fields name, description.
    Edit,
}

impl FormKind {
    /// How many fields a form of this kind holds.
    pub open spec fn spec_field_count(self) -> int {
        match self {
            FormKind::Add => 3,
            FormKind::Edit => 2,
        }
    }

    /// How many fields a form of this kind holds.
    pub fn field_count(self) -> (r: usize)
        ensures
            r == self.spec_field_count(),
    {
        match self {
            FormKind::Add => 3,
            FormKind::Edit => 2,
        }
    }

    /// The labels of the fields, in field order.
    pub fn labels(self) -> (r: Vec<&'static str>)
        ensures
            r@.len() == self.spec_field_count(),
            self is Add ==> r@[0]@ == "ns_id"@ && r@[1]@ == "ns_name"@ && r@[2]@ == "ns_desc"@,
            self is Edit ==> r@[0]@ == "ns_name"@ && r@[1]@ == "ns_desc"@,
    {
        match self {
            FormKind::Add => vec!["ns_id", "ns_name", "ns_desc"],
            FormKind::Edit => vec!["ns_name", "ns_desc"],
        }
    }
}

/// The abstract value of a [`Form`].
#[verifier::ext_equal]
pub struct FormView {
    pub kind: FormKind,
    pub fields: Seq<FieldView>,
    pub focus: int,
}

impl FormView {
    /// The fields match the kind's count, the focus is a valid field index,
    /// and every field is well formed.
    pub open spec fn wf(self) -> bool {
        &&& self.fields.len() == self.kind.spec_field_count()
        &&& 0 <= self.focus < self.fields.len()
        &&& forall|i: int| 0 <= i < self.fields.len() ==> (#[trigger] self.fields[i]).wf()
    }

    /// The extracted text of field `i`.
    pub open spec fn field_text(self, i: int) -> Seq<char> {
        self.fields[i].text()
    }
}

/// Advancing the focus: one step forward, cyclic over the fields.
pub open spec fn advance_focus_spec(f: FormView) -> FormView {
    FormView { focus: (f.focus + 1) % (f.fields.len() as int), ..f }
}

/// Routing a key: the key is applied to the focused field alone.
pub open spec fn route_input_spec(f: FormView, key: KeyEvent) -> FormView {
    FormView { fields: f.fields.update(f.focus, field_step(f.fields[f.focus], key)), ..f }
}

/// Advancing the focus keeps the form well formed: the new focus is again
/// a valid field index and the fields are untouched.
pub proof fn lemma_advance_focus_wf(f: FormView)
    requires
        f.wf(),
    ensures
        advance_focus_spec(f).wf(),
        advance_focus_spec(f).fields == f.fields,
{
    vstd::arithmetic::div_mod::lemma_mod_bound(f.focus + 1, f.fields.len() as int);
}

/// Routing a key keeps the form well formed: only the focused field
/// changes, and editing keeps a field well formed.
pub proof fn lemma_route_input_wf(f: FormView, key: KeyEvent)
    requires
        f.wf(),
    ensures
        route_input_spec(f, key).wf(),
{
    let f2 = route_input_spec(f, key);
    assert forall|i: int| 0 <= i < f2.fields.len() implies (#[trigger] f2.fields[i]).wf() by {
        if i == f.focus {
            crate::editor::lemma_field_step_wf(f.fields[f.focus], key);
        }
    }
}

/// An ordered group of text fields with one focused field.
pub struct Form {
    pub kind: FormKind,
    pub fields: Vec<TextField>,
    pub focus_index: usize,
}

impl View for Form {
    type V = FormView;

    open spec fn view(&self) -> FormView {
        FormView {
            kind: self.kind,
            fields: self.fields@.map_values(|f: TextField| f@),
            focus: self.focus_index as int,
        }
    }
}

impl Form {
    /// A form for adding a namespace: three empty fields, focus on the
    /// first.
    pub fn new_add() -> (r: Form)
        ensures
            r@.wf(),
            r@.kind is Add,
            r@.focus == 0,
            forall|i: int|
                0 <= i < 3 ==> (#[trigger] r@.fields[i]).lines == seq![Seq::<char>::empty()]
                    && r@.fields[i].row == 0 && r@.fields[i].col == 0,
    {
        let fields: Vec<TextField> = vec![TextField::new(), TextField::new(), TextField::new()];
        let r = Form { kind: FormKind::Add, fields, focus_index: 0 };
        proof {
            assert(r@.fields.len() == 3);
        }
        r
    }

    /// A form for editing a namespace: the name and description fields
    /// pre-filled from the entity, cursor at the end of each, focus on the
    /// first.
    pub fn new_edit(name: &str, desc: &str) -> (r: Form)
        ensures
            r@.wf(),
            r@.kind is Edit,
            r@.focus == 0,
            r@.fields[0].lines == seq![name@],
            r@.fields[0].row == 0,
            r@.fields[0].col == name@.len(),
            r@.fields[1].lines == seq![desc@],
            r@.fields[1].row == 0,
            r@.fields[1].col == desc@.len(),
    {
        let fields: Vec<TextField> = vec![
            TextField::initialize(name),
            TextField::initialize(desc),
        ];
        let r = Form { kind: FormKind::Edit, fields, focus_index: 0 };
        proof {
            assert(r@.fields.len() == 2);
        }
        r
    }

    /// Moves the focus to the next field, wrapping past the last one.
    pub fn advance_focus(&mut self)
        requires
            old(self)@.wf(),
        ensures
            final(self)@.wf(),
            final(self)@ == advance_focus_spec(old(self)@),
    {
        let n = self.fields.len();
        self.focus_index = (self.focus_index + 1) % n;
        proof {
            assert(self@ =~= advance_focus_spec(old(self)@));
        }
    }

    /// Forwards a key press to the focused field.
    pub fn route_input(&mut self, key: KeyEvent)
        requires
            old(self)@.wf(),
        ensures
            final(self)@.wf(),
            final(self)@ == route_input_spec(old(self)@, key),
    {
        let i = self.focus_index;
        let field = &mut self.fields[i];
        field.apply_input(key);
        proof {
            assert(self@.fields =~= route_input_spec(old(self)@, key).fields);
            assert(self@ =~= route_input_spec(old(self)@, key));
        }
    }

    /// The extracted text of field `i`.
    pub fn field_text(&self, i: usize) -> (r: String)
        requires
            i < self@.fields.len(),
        ensures
            r@ == self@.field_text(i as int),
    {
        self.fields[i].to_string()
    }

    /// The form content as label/value pairs, in field order.
    pub fn collect(&self) -> (r: Vec<(String, String)>)
        requires
            self@.wf(),
        ensures
            r@.len() == self@.fields.len(),
            forall|i: int|
                0 <= i < r@.len() ==> (#[trigger] r@[i]).1@ == self@.field_text(i),
    {
        let labels = self.kind.labels();
        let mut r: Vec<(String, String)> = Vec::new();
        let mut i: usize = 0;
        while i < self.fields.len()
            invariant
                i <= self.fields@.len(),
                self@.wf(),
                labels@.len() == self@.fields.len(),
                r@.len() == i,
                forall|j: int| 0 <= j < i ==> (#[trigger] r@[j]).1@ == self@.field_text(j),
            decreases self.fields@.len() - i,
        {
            let label = String::from_str(labels[i]);
            let value = self.fields[i].to_string();
            r.push((label, value));
            i += 1;
        }
        r
    }
}

} // verus!
