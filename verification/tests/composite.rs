use resettable::{Resettable, ResettableWrapper};

/// A composite with two resettable fields and one plain field.
#[derive(Debug, Clone, PartialEq, Eq)]
struct Form {
    name: ResettableWrapper<String>,
    age: ResettableWrapper<u8>,
    revision: u32,
}

impl Resettable for Form {
    fn reset(self) -> Self {
        Form {
            name: self.name.reset(),
            age: self.age.reset(),
            revision: self.revision,
        }
    }
}

fn form() -> Form {
    Form {
        name: String::from("Ada").into(),
        age: 36.into(),
        revision: 1,
    }
}

#[test]
fn composite_restores_the_field_that_was_written() {
    let mut edited = form();
    *edited.name = String::from("Grace");
    edited.name.push_str(" H.");
    assert_eq!(*edited.name, "Grace H.");
    let restored = edited.reset();
    assert_eq!(restored, form());
    assert_eq!(*restored.name, "Ada");
    assert_eq!(*restored.age, 36);
}

#[test]
fn composite_restores_both_fields() {
    let mut edited = form();
    *edited.name = String::from("Grace");
    *edited.age += 1;
    *edited.age += 1;
    assert_eq!(*edited.age, 38);
    let restored = edited.reset();
    assert_eq!(*restored.name, "Ada");
    assert_eq!(*restored.age, 36);
    assert_eq!(restored, form());
}

#[test]
fn composite_carries_plain_fields_over() {
    let mut edited = form();
    edited.revision = 2;
    *edited.age = 0;
    let restored = edited.reset();
    assert_eq!(restored.revision, 2);
    assert_eq!(*restored.age, 36);
    assert_ne!(restored, form());
}

#[test]
fn composite_reset_twice_is_reset_once() {
    let mut edited = form();
    *edited.age = 99;
    let once = edited.reset();
    let twice = once.clone().reset();
    assert_eq!(twice, once);
}
