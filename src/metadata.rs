use vstd::prelude::*;

verus! {

/// Name, symbol and decimals of a token.
#[derive(Debug)]
pub struct FungibleTokenMetadata {
    pub name: String,
    pub symbol: String,
    pub decimal: u8,
}

impl Clone for FungibleTokenMetadata {
    fn clone(&self) -> (r: Self)
        ensures
            r == *self,
    {
        FungibleTokenMetadata { name: self.name.clone(), symbol: self.symbol.clone(), decimal: self.decimal }
    }
}

/// Gives out a ledger's metadata.
pub trait FungibleTokenMetadataProvider {
    fn set_metadata(&self) -> FungibleTokenMetadata;
}

} // verus!
