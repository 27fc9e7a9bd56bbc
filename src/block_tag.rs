use crate::digits::{lemma_words_value_positive, lemma_words_value_zero, words_value};
use crate::error::ValidationError;
use crate::uint256::BigIntWords;
use vstd::prelude::*;

verus! {

/// Which block a query refers to.
#[derive(Clone, Copy, Debug, PartialEq, Eq, Structural)]
pub enum BlockTag {
    Latest,
    Finalized,
    Number(u64),
}

/// A block reference built from host values.
#[derive(Clone, Copy, Debug, PartialEq, Eq, Structural)]
pub struct JsBlockTag(pub BlockTag);

impl JsBlockTag {
    /// The most recent block.
    pub fn latest() -> (r: JsBlockTag)
        ensures
            r.0 == BlockTag::Latest,
    {
        JsBlockTag(BlockTag::Latest)
    }

    /// The most recent finalized block.
    pub fn finalized() -> (r: JsBlockTag)
        ensures
            r.0 == BlockTag::Finalized,
    {
        JsBlockTag(BlockTag::Finalized)
    }

    /// The block with the number that a host big integer holds; refused unless the
    /// sign flag is clear and the value fits in 64 bits.
    pub fn number(x: BigIntWords) -> (r: Result<JsBlockTag, ValidationError>)
        ensures
            match r {
                Ok(t) => !x.sign_bit && words_value(x.words@) < 0x1_0000_0000_0000_0000
                    && t.0 == BlockTag::Number(words_value(x.words@) as u64),
                Err(e) => (x.sign_bit || words_value(x.words@) >= 0x1_0000_0000_0000_0000)
                    && e == ValidationError::InvalidBlockNumber,
            },
    {
        if x.sign_bit {
            return Err(ValidationError::InvalidBlockNumber);
        }
        let w = &x.words;
        let mut i: usize = 1;
        while i < w.len()
            invariant
                1 <= i,
                w@ == x.words@,
                forall|j: int| 1 <= j < i && j < w@.len() ==> w@[j] == 0,
            decreases w.len() - i,
        {
            if w[i] != 0 {
                proof {
                    let rest = w@.drop_first();
                    assert(rest[i - 1] != 0);
                    lemma_words_value_positive(rest, i - 1);
                    let v = words_value(rest);
                    assert(0x1_0000_0000_0000_0000 * v >= 0x1_0000_0000_0000_0000) by (nonlinear_arith)
                        requires
                            v >= 1,
                    ;
                }
                return Err(ValidationError::InvalidBlockNumber);
            }
            i = i + 1;
        }
        if w.len() == 0 {
            return Ok(JsBlockTag(BlockTag::Number(0)));
        }
        proof {
            let rest = w@.drop_first();
            assert forall|j: int| 0 <= j < rest.len() implies #[trigger] rest[j] == 0 by {
                assert(w@[j + 1] == 0);
            }
            lemma_words_value_zero(rest);
        }
        Ok(JsBlockTag(BlockTag::Number(w[0])))
    }
}

} // verus!
