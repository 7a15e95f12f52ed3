//! Fonts and texts of the drawing layer.
use vstd::prelude::*;

verus! {

/// A font, known by the number of the object that holds it.
#[derive(Debug, Clone, Copy, PartialEq, Eq, PartialOrd, Ord, Structural)]
pub struct Typeface {
    object_id: u64,
}

impl Typeface {
    /// The number of the object.
    pub closed spec fn spec_id(&self) -> u64 {
        self.object_id
    }

    pub fn new_from_id(object_id: u64) -> (typeface: Self)
        ensures
            typeface.spec_id() == object_id,
    {
        Self { object_id }
    }

    pub fn id(&self) -> (id: u64)
        ensures
            id == self.spec_id(),
    {
        self.object_id
    }

    /// The font that the device names as the painter's: the number 0 stands
    /// for none.
    pub fn from_painter(object_id: u64) -> (typeface: Option<Self>)
        ensures
            match typeface {
                Some(typeface) => object_id != 0 && typeface.spec_id() == object_id,
                None => object_id == 0,
            },
    {
        if object_id == 0 {
            None
        } else {
            Some(Typeface::new_from_id(object_id))
        }
    }
}

/// Two fonts with one number are one font.
pub proof fn lemma_typefaces_with_one_id_are_equal(first: Typeface, second: Typeface)
    requires
        first.spec_id() == second.spec_id(),
    ensures
        first == second,
{
}

/// What a text is made of: an object that the device keeps, or letters that
/// are sent each time the text is drawn.
#[derive(Debug, Clone)]
pub enum TextType<T> {
    Static(u64),
    Dynamic(T),
}

impl<T> TextType<T> {
    /// The number of the object that the device keeps for the text, if it
    /// keeps one.
    pub fn object_id(&self) -> (id: Option<u64>)
        ensures
            id == match self {
                TextType::Static(object_id) => Some(*object_id),
                TextType::Dynamic(_) => None::<u64>,
            },
    {
        match self {
            TextType::Static(object_id) => Some(*object_id),
            TextType::Dynamic(_) => None,
        }
    }
}

} // verus!
