//! The binding set's layout: which buffer the kernel finds in which slot.
//!
//! The layout is the same for every method and never changes.

use vstd::prelude::*;

verus! {

/// How the kernel may use the buffer in a slot.
#[derive(Copy, Clone, Debug, PartialEq, Eq, Structural)]
pub enum BindingKind {
    /// A storage buffer the kernel only reads.
    ReadOnlyStorage,
    /// A storage buffer the kernel reads and writes.
    ReadWriteStorage,
    /// A uniform buffer.
    Uniform,
}

/// The four buffers of a binding set.
#[derive(Copy, Clone, Debug, PartialEq, Eq, Structural)]
pub enum Binding {
    /// The input surface's samples.
    Input,
    /// The template's samples.
    Template,
    /// The scores the kernel writes.
    Result,
    /// The dimensions of input and template.
    Dimensions,
}

/// Number of slots in the binding set.
pub const BINDING_COUNT: u32 = 4;

impl Binding {
    /// The slot of this buffer.
    pub open spec fn spec_index(self) -> u32 {
        match self {
            Binding::Input => 0,
            Binding::Template => 1,
            Binding::Result => 2,
            Binding::Dimensions => 3,
        }
    }

    /// How the kernel may use this buffer.
    pub open spec fn spec_kind(self) -> BindingKind {
        match self {
            Binding::Input => BindingKind::ReadOnlyStorage,
            Binding::Template => BindingKind::ReadOnlyStorage,
            Binding::Result => BindingKind::ReadWriteStorage,
            Binding::Dimensions => BindingKind::Uniform,
        }
    }

    /// The buffer in a slot, if the slot exists.
    pub open spec fn spec_at(index: u32) -> Option<Binding> {
        if index == 0 {
            Some(Binding::Input)
        } else if index == 1 {
            Some(Binding::Template)
        } else if index == 2 {
            Some(Binding::Result)
        } else if index == 3 {
            Some(Binding::Dimensions)
        } else {
            None
        }
    }

    /// The slot of this buffer.
    pub fn index(self) -> (index: u32)
        ensures
            index == self.spec_index(),
            index < BINDING_COUNT,
    {
        match self {
            Binding::Input => 0,
            Binding::Template => 1,
            Binding::Result => 2,
            Binding::Dimensions => 3,
        }
    }

    /// How the kernel may use this buffer.
    pub fn kind(self) -> (kind: BindingKind)
        ensures
            kind == self.spec_kind(),
    {
        match self {
            Binding::Input => BindingKind::ReadOnlyStorage,
            Binding::Template => BindingKind::ReadOnlyStorage,
            Binding::Result => BindingKind::ReadWriteStorage,
            Binding::Dimensions => BindingKind::Uniform,
        }
    }

    /// The buffer in a slot, if the slot exists.
    pub fn at(index: u32) -> (binding: Option<Binding>)
        ensures
            binding == Binding::spec_at(index),
            binding is Some <==> index < BINDING_COUNT,
    {
        if index == 0 {
            Some(Binding::Input)
        } else if index == 1 {
            Some(Binding::Template)
        } else if index == 2 {
            Some(Binding::Result)
        } else if index == 3 {
            Some(Binding::Dimensions)
        } else {
            None
        }
    }
}

/// The buffers of the binding set in the order of their slots.
pub fn layout() -> (slots: [Binding; 4])
    ensures
        slots@ == seq![Binding::Input, Binding::Template, Binding::Result, Binding::Dimensions],
        forall|i: int| 0 <= i < 4 ==> (#[trigger] slots@[i]).spec_index() == i,
{
    let slots: [Binding; 4] = [
        Binding::Input,
        Binding::Template,
        Binding::Result,
        Binding::Dimensions,
    ];
    assert(slots@ =~= seq![
        Binding::Input,
        Binding::Template,
        Binding::Result,
        Binding::Dimensions,
    ]);
    slots
}

/// Every buffer has a slot of its own, and every slot below
/// [`BINDING_COUNT`] holds a buffer.
pub proof fn lemma_slots_and_buffers_correspond(binding: Binding, index: u32)
    ensures
        Binding::spec_at(binding.spec_index()) == Some(binding),
        Binding::spec_at(index) matches Some(found) ==> found.spec_index() == index,
        Binding::spec_at(index) is Some <==> index < BINDING_COUNT,
{
}

} // verus!
