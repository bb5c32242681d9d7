//! Components of the entity store: values that can make themselves, name
//! themselves and hand out their content.

use vstd::prelude::*;

verus! {

/// What every component can do.
pub trait Base<T>: Sized {
    fn new() -> Self;

    fn get_name(&self) -> String;

    fn get_component(&self) -> T;

    fn get_component_mut(&mut self) -> &mut T;
}

/// A component with a value, a count and a name.
pub struct ExampleComponent {
    pub value: i32,
    pub f: usize,
    pub name: String,
}

impl ExampleComponent {
    /// The component's count.
    pub fn thing(&self) -> (r: usize)
        ensures
            r == self.f,
    {
        self.f
    }

    /// Takes over the value, the count and the name of `component`.
    pub fn assign(&mut self, component: ExampleComponent)
        ensures
            *final(self) == component,
    {
        self.value = component.value;
        self.name = component.name;
        self.f = component.f;
    }
}

impl Base<ExampleComponent> for ExampleComponent {
    /// A component with the value 0, the count 9 and the name `New Name`.
    fn new() -> (r: Self)
        ensures
            r.value == 0,
            r.f == 9,
            r.name@ == "New Name"@,
    {
        ExampleComponent { value: 0, name: "New Name".to_owned(), f: 9 }
    }

    fn get_name(&self) -> (r: String)
        ensures
            r@ == self.name@,
    {
        self.name.clone()
    }

    /// A copy of the component with the same value and name, and the
    /// count 5.
    fn get_component(&self) -> (r: ExampleComponent)
        ensures
            r.value == self.value,
            r.name@ == self.name@,
            r.f == 5,
    {
        ExampleComponent { value: self.value, name: self.name.clone(), f: 5 }
    }

    fn get_component_mut(&mut self) -> (r: &mut ExampleComponent)
        ensures
            *r == *old(self),
            *final(self) == *final(r),
    {
        self
    }
}

} // verus!
