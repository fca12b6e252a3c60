use std::collections::HashMap;
use vstd::prelude::*;

verus! {

/// A token quantity: an unsigned fixed-width integer with no fractional part.
pub type Amount = u64;

/// An account identifier. Two addresses are the same account exactly when
/// their texts are equal.
#[derive(Debug)]
pub struct Address {
    pub id: String,
}

impl View for Address {
    type V = Seq<char>;

    open spec fn view(&self) -> Seq<char> {
        self.id@
    }
}

impl Address {
    pub fn new(s: &str) -> (r: Address)
        ensures
            r@ == s@,
    {
        Address { id: s.to_owned() }
    }

    pub fn as_str(&self) -> (r: &str)
        ensures
            r@ == self@,
    {
        self.id.as_str()
    }
}

impl Clone for Address {
    fn clone(&self) -> (r: Self)
        ensures
            r == *self,
    {
        Address { id: self.id.clone() }
    }
}

impl PartialEq for Address {
    fn eq(&self, o: &Address) -> (r: bool) {
        self.id == o.id
    }
}

impl vstd::std_specs::cmp::PartialEqSpecImpl for Address {
    open spec fn obeys_eq_spec() -> bool {
        true
    }

    open spec fn eq_spec(&self, o: &Address) -> bool {
        self@ == o@
    }
}

/// Identifier of a token within its collection. The ledger hands out serial
/// numbers 0, 1, 2, ... in minting order; written as 64 hexadecimal digits a
/// serial is the 32-byte form of the id.
#[derive(Debug, Clone, Copy, PartialEq, Eq, Structural, Hash)]
pub struct TokenId {
    pub serial: u64,
}

impl TokenId {
    /// The placeholder id carried by metadata before the ledger assigns one.
    pub fn placeholder() -> (r: TokenId)
        ensures
            r.serial == 0,
    {
        TokenId { serial: 0 }
    }
}

#[derive(Debug, Clone, Copy, PartialEq, Eq, Structural)]
pub enum VisibilityLevel {
    Public,
    Private,
    Restricted,
}

#[derive(Debug)]
pub struct PrivacyConfig {
    pub encrypted: bool,
    pub encryption_key: Option<Vec<u8>>,
    pub visibility: VisibilityLevel,
}

/// What is recorded about a token. `token_id` is a placeholder on input to
/// `mint` and is overwritten by the ledger with the assigned id.
#[derive(Debug)]
pub struct NftMetadata {
    pub token_id: TokenId,
    pub name: String,
    pub description: Option<String>,
    pub uri: Option<String>,
    pub creator: Address,
    pub attributes: HashMap<String, String>,
    pub transferable: bool,
    pub privacy_config: Option<PrivacyConfig>,
}

/// Royalty shares paid on every sale of a token, in basis points of the price.
#[derive(Debug)]
pub struct RoyaltyConfig {
    pub creator: Address,
    pub royalty_percentage: u16,
    pub secondary_recipients: Vec<(Address, u16)>,
    pub royalty_token: Option<Address>,
}

/// The result of a successful transfer. Whatever part of the sale price is
/// not paid out here goes to the seller.
#[derive(Debug)]
pub struct TransferOutcome {
    pub new_owner: Address,
    pub royalties: Option<Vec<(Address, Amount)>>,
    pub program_fee: Option<(Address, Amount)>,
}

/// The caller identity under which a ledger operation runs.
#[derive(Debug)]
pub struct TxContext {
    pub caller: Address,
}

impl TxContext {
    pub fn new(caller: Address) -> (r: TxContext)
        ensures
            r.caller == caller,
    {
        TxContext { caller }
    }
}

/// Why a ledger operation was refused. A refused operation changes nothing.
#[derive(Debug, Clone, Copy, PartialEq, Eq, Structural)]
pub enum NftError {
    Unauthorized,
    TokenNotFound,
    NotTransferable,
    InvalidRoyaltyConfig,
    InvalidFeeConfig,
    DuplicateToken,
    ArithmeticOverflow,
}

} // verus!
