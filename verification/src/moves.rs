//! The kinds of move a player can make, and the data each one carries.

use vstd::prelude::*;

verus! {

/// A move is one of three kinds: suggesting a number, predicting the number
/// the other player suggested, or swapping the two players' roles.
#[derive(Clone, Copy, Debug, PartialEq, Eq, Structural)]
pub enum MoveType {
    Suggest { suggestion: usize },
    Predict { prediction: usize },
    Swap {},
}

impl MoveType {
    /// One example value of each variant, in declaration order.
    pub fn describe() -> (examples: Vec<MoveType>)
        ensures
            examples@ == seq![
                (MoveType::Suggest { suggestion: 0 }),
                (MoveType::Predict { prediction: 0 }),
                (MoveType::Swap {}),
            ],
    {
        let mut examples: Vec<MoveType> = Vec::new();
        examples.push(MoveType::Suggest { suggestion: 0 });
        examples.push(MoveType::Predict { prediction: 0 });
        examples.push(MoveType::Swap {});
        proof {
            assert(examples@ =~= seq![
                (MoveType::Suggest { suggestion: 0 }),
                (MoveType::Predict { prediction: 0 }),
                (MoveType::Swap {}),
            ]);
        }
        examples
    }
}

} // verus!
