use resettable::{Resettable, ResettableWrapper};

#[derive(Debug, Clone, PartialEq, Eq, PartialOrd, Ord)]
struct Complex {
    first: ResettableWrapper<usize>,
    second: ResettableWrapper<String>,
}

impl Resettable for Complex {
    fn reset(self) -> Self {
        Complex {
            first: self.first.reset(),
            second: self.second.reset(),
        }
    }
}

#[test]
fn basic() {
    let original = Complex {
        first: 123.into(),
        second: "foo".to_string().into(),
    };
    let mut complex = original.clone();
    println!("original: {:?}", complex);

    *complex.first += 100;
    println!("mutated first: {:?}", complex);

    let mut complex = complex.reset();

    *complex.second = "bar".to_string();
    println!("mutated second: {:?}", complex);

    let reset = complex.reset();
    println!("original: {:?}", reset);

    assert_eq!(reset, original);
}
