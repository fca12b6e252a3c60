use crate::types::{Address, TokenId};
use vstd::prelude::*;
use vstd::string::StringExecFns;

verus! {

/// The upper-case hexadecimal digit of value `d`.
pub open spec fn hex_digit(d: int) -> char {
    seq!['0', '1', '2', '3', '4', '5', '6', '7', '8', '9', 'A', 'B', 'C', 'D', 'E', 'F'][d]
}

/// The last `width` upper-case hexadecimal digits of `n`, zeros on the left.
pub open spec fn hex_text(n: nat, width: nat) -> Seq<char>
    decreases width,
{
    if width == 0 {
        Seq::empty()
    } else {
        hex_text(n / 16, (width - 1) as nat).push(hex_digit((n % 16) as int))
    }
}

/// Relies on std's `{:064X}` formatting of a `u64`: upper-case hexadecimal
/// digits, zero-padded on the left to 64 characters.
#[verifier::external_body]
fn upper_hex_64(n: u64) -> (r: String)
    ensures
        r@ == hex_text(n as nat, 64),
{
    format!("{:064X}", n)
}

/// Builds the addresses of explorer pages for tokens and wallets.
#[derive(Debug)]
pub struct NamadaExplorer {
    pub base_url: String,
}

impl NamadaExplorer {
    pub fn new(base_url: &str) -> (r: NamadaExplorer)
        ensures
            r.base_url@ == base_url@,
    {
        NamadaExplorer { base_url: base_url.to_owned() }
    }

    /// The page of a token: its id is written as 64 hexadecimal digits, the
    /// 32-byte form of the serial number.
    pub fn get_nft_token_url(&self, token_id: &TokenId) -> (r: String)
        ensures
            r@ == self.base_url@ + "/token/"@ + hex_text(token_id.serial as nat, 64),
    {
        let hex = upper_hex_64(token_id.serial);
        self.base_url.clone().concat("/token/").concat(hex.as_str())
    }

    /// The page listing the tokens of a wallet.
    pub fn get_wallet_nfts_url(&self, address: &Address) -> (r: String)
        ensures
            r@ == self.base_url@ + "/address/"@ + address@ + "/nfts"@,
    {
        self.base_url.clone().concat("/address/").concat(address.as_str()).concat("/nfts")
    }
}

} // verus!
