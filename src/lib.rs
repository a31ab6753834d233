use vstd::prelude::*;

pub mod dog_image;
pub mod error;
pub mod random_dog;
pub mod save;

verus! {

} // verus!
