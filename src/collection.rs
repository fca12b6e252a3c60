use crate::auth::require_caller;
use crate::bps::share_of;
use crate::royalty::{
    distribute, distribution_fits, lemma_payments_nonneg, paid_sum, payments,
    royalty_config_valid, royalty_entries, validate_royalty_config,
};
use crate::types::{
    Address, Amount, NftError, NftMetadata, RoyaltyConfig, TokenId, TransferOutcome, TxContext,
};
use vstd::prelude::*;

verus! {

/// Everything the ledger records about one token: its owner, its metadata
/// and its royalty configuration, kept together so that the three share one
/// key.
#[derive(Debug)]
pub struct TokenRecord {
    pub id: TokenId,
    pub owner: Address,
    pub metadata: NftMetadata,
    pub royalty: Option<RoyaltyConfig>,
}

/// A named collection of tokens sharing one fee configuration. Token ids are
/// serial numbers: the token with serial `i` sits at position `i` of `tokens`.
#[derive(Debug)]
pub struct NftCollection {
    pub name: String,
    pub fee_collector: Address,
    pub fee_basis_points: u16,
    pub tokens: Vec<TokenRecord>,
}

impl NftCollection {
    /// The collection's invariant: the fee takes at most the whole price,
    /// the record at position `i` carries id `i` in its key and in its
    /// metadata, and every stored royalty configuration is valid.
    pub open spec fn wf(self) -> bool {
        &&& self.fee_basis_points <= 10000
        &&& self.tokens@.len() <= u64::MAX
        &&& forall|i: int|
            0 <= i < self.tokens@.len() ==> {
                &&& (#[trigger] self.tokens@[i]).id.serial == i
                &&& self.tokens@[i].metadata.token_id == self.tokens@[i].id
                &&& self.tokens@[i].royalty matches Some(c) ==> royalty_config_valid(c)
            }
    }

    /// Token `id` has been minted.
    pub open spec fn has_token(self, id: TokenId) -> bool {
        id.serial < self.tokens@.len()
    }

    /// What is recorded for token `id`, where it exists.
    pub open spec fn record(self, id: TokenId) -> TokenRecord {
        self.tokens@[id.serial as int]
    }

    /// Name and fee configuration agree.
    pub open spec fn same_config(self, other: NftCollection) -> bool {
        &&& self.name == other.name
        &&& self.fee_collector == other.fee_collector
        &&& self.fee_basis_points == other.fee_basis_points
    }

    /// `after` is `self` with one token minted under `id`.
    pub open spec fn minted(
        self,
        after: NftCollection,
        metadata: NftMetadata,
        royalty_config: Option<RoyaltyConfig>,
        id: TokenId,
    ) -> bool {
        &&& id.serial == self.tokens@.len()
        &&& id.serial < u64::MAX
        &&& royalty_config matches Some(c) ==> royalty_config_valid(c)
        &&& after.same_config(self)
        &&& after.tokens@ == self.tokens@.push(
            TokenRecord {
                id,
                owner: metadata.creator,
                metadata: NftMetadata { token_id: id, ..metadata },
                royalty: royalty_config,
            },
        )
    }

    /// The error a transfer meets, checked in this order: the caller must be
    /// `from`, the token must exist, `from` must own it, it must be
    /// transferable, and fee and royalties must fit in the price.
    pub open spec fn transfer_error(
        self,
        caller: Address,
        id: TokenId,
        from: Address,
        sale_price: Option<Amount>,
    ) -> Option<NftError> {
        if caller@ != from@ {
            Some(NftError::Unauthorized)
        } else if !self.has_token(id) {
            Some(NftError::TokenNotFound)
        } else if self.record(id).owner@ != from@ {
            Some(NftError::Unauthorized)
        } else if !self.record(id).metadata.transferable {
            Some(NftError::NotTransferable)
        } else if sale_price matches Some(v) && !distribution_fits(
            v as int,
            self.fee_basis_points as int,
            self.record(id).royalty,
        ) {
            Some(NftError::ArithmeticOverflow)
        } else {
            None
        }
    }

    /// `after` is `self` with token `id` now owned by `to`.
    pub open spec fn transferred(self, after: NftCollection, id: TokenId, to: Address) -> bool {
        &&& after.same_config(self)
        &&& after.tokens@ == self.tokens@.update(
            id.serial as int,
            TokenRecord { owner: to, ..self.record(id) },
        )
    }

    /// Creates an empty collection; the fee may take at most the whole price.
    pub fn new(name: String, fee_collector: Address, fee_basis_points: u16) -> (r: Result<
        NftCollection,
        NftError,
    >)
        ensures
            r is Err <==> fee_basis_points > 10000,
            r matches Err(e) ==> e == NftError::InvalidFeeConfig,
            r matches Ok(c) ==> {
                &&& c.wf()
                &&& c.name == name
                &&& c.fee_collector == fee_collector
                &&& c.fee_basis_points == fee_basis_points
                &&& c.tokens@.len() == 0
            },
    {
        if fee_basis_points > 10000 {
            return Err(NftError::InvalidFeeConfig);
        }
        Ok(NftCollection { name, fee_collector, fee_basis_points, tokens: Vec::new() })
    }

    /// Mints a token owned by its creator under the next serial id. Any
    /// caller may mint; the context is taken as for every mutating call. All
    /// checks come before the single insertion: on an error nothing changes.
    pub fn mint(
        &mut self,
        context: &TxContext,
        metadata: NftMetadata,
        royalty_config: Option<RoyaltyConfig>,
    ) -> (r: Result<TokenId, NftError>)
        requires
            old(self).wf(),
        ensures
            final(self).wf(),
            r == Err::<TokenId, NftError>(NftError::InvalidRoyaltyConfig) <==> (
            royalty_config matches Some(c) && !royalty_config_valid(c)),
            r is Ok <==> ((royalty_config matches Some(c) ==> royalty_config_valid(c))
                && old(self).tokens@.len() < u64::MAX),
            r matches Err(e) ==> *final(self) == *old(self) && (e == NftError::InvalidRoyaltyConfig
                || e == NftError::ArithmeticOverflow),
            r matches Ok(id) ==> old(self).minted(*final(self), metadata, royalty_config, id),
    {
        let valid = match &royalty_config {
            Some(c) => validate_royalty_config(c),
            None => true,
        };
        if !valid {
            return Err(NftError::InvalidRoyaltyConfig);
        }
        let n = self.tokens.len();
        if n as u64 == u64::MAX {
            return Err(NftError::ArithmeticOverflow);
        }
        let id = TokenId { serial: n as u64 };
        if (id.serial as usize) < self.tokens.len() {
            return Err(NftError::DuplicateToken);
        }
        let owner = metadata.creator.clone();
        let mut metadata = metadata;
        metadata.token_id = id;
        self.tokens.push(TokenRecord { id, owner, metadata, royalty: royalty_config });
        proof {
            assert(forall|i: int|
                0 <= i < old(self).tokens@.len() ==> self.tokens@[i] == old(self).tokens@[i]);
        }
        Ok(id)
    }

    /// Moves token `token_id` from `from` to `to`, dividing `sale_price`, if
    /// there is one, between fee collector, royalty recipients and seller.
    /// All checks and amounts come before the single owner update: on an
    /// error nothing changes.
    pub fn transfer(
        &mut self,
        context: &TxContext,
        token_id: TokenId,
        from: &Address,
        to: &Address,
        sale_price: Option<Amount>,
    ) -> (r: Result<TransferOutcome, NftError>)
        requires
            old(self).wf(),
        ensures
            final(self).wf(),
            match old(self).transfer_error(context.caller, token_id, *from, sale_price) {
                Some(e) => r == Err::<TransferOutcome, NftError>(e) && *final(self) == *old(self),
                None => r is Ok,
            },
            r matches Ok(out) ==> {
                &&& old(self).transferred(*final(self), token_id, *to)
                &&& out.new_owner == *to
                &&& out.follows_sale(
                    sale_price,
                    old(self).fee_collector,
                    old(self).fee_basis_points,
                    old(self).record(token_id).royalty,
                )
            },
    {
        if let Err(e) = require_caller(&context.caller, from) {
            return Err(e);
        }
        if token_id.serial >= self.tokens.len() as u64 {
            return Err(NftError::TokenNotFound);
        }
        let idx = token_id.serial as usize;
        let rec = &self.tokens[idx];
        if let Err(e) = require_caller(from, &rec.owner) {
            return Err(e);
        }
        if !rec.metadata.transferable {
            return Err(NftError::NotTransferable);
        }
        let d = match distribute(sale_price, self.fee_basis_points, &self.fee_collector, &rec.royalty) {
            Ok(d) => d,
            Err(e) => {
                return Err(e);
            },
        };
        self.tokens[idx].owner = to.clone();
        proof {
            assert(self.tokens@ =~= old(self).tokens@.update(
                token_id.serial as int,
                TokenRecord { owner: *to, ..old(self).record(token_id) },
            ));
        }
        Ok(TransferOutcome { new_owner: to.clone(), royalties: d.royalties, program_fee: d.fee })
    }
    /// The recorded owner of a token, if it exists.
    pub fn owner_of(&self, token_id: TokenId) -> (r: Option<Address>)
        requires
            self.wf(),
        ensures
            r == (if self.has_token(token_id) {
                Some(self.record(token_id).owner)
            } else {
                None
            }),
    {
        if token_id.serial >= self.tokens.len() as u64 {
            return None;
        }
        Some(self.tokens[token_id.serial as usize].owner.clone())
    }

    /// The metadata of a token, if it exists.
    pub fn metadata_of(&self, token_id: TokenId) -> (r: Option<&NftMetadata>)
        requires
            self.wf(),
        ensures
            r matches Some(m) ==> self.has_token(token_id) && *m == self.record(token_id).metadata,
            r is None ==> !self.has_token(token_id),
    {
        if token_id.serial >= self.tokens.len() as u64 {
            return None;
        }
        Some(&self.tokens[token_id.serial as usize].metadata)
    }

    /// The ids of the tokens owned by `owner`, in minting order.
    pub fn tokens_owned_by(&self, owner: &Address) -> (r: Vec<TokenId>)
        ensures
            r@ == owned_ids(self.tokens@, owner@),
    {
        let mut out: Vec<TokenId> = Vec::new();
        let mut i: usize = 0;
        while i < self.tokens.len()
            invariant
                0 <= i <= self.tokens@.len(),
                out@ == owned_ids(self.tokens@.take(i as int), owner@),
            decreases self.tokens@.len() - i,
        {
            proof {
                assert(self.tokens@.take(i + 1).drop_last() =~= self.tokens@.take(i as int));
            }
            let rec = &self.tokens[i];
            if rec.owner.id == owner.id {
                out.push(rec.id);
            }
            i = i + 1;
        }
        proof {
            assert(self.tokens@.take(i as int) =~= self.tokens@);
        }
        out
    }
}

/// The ids of the records owned by `owner`, in their order.
pub open spec fn owned_ids(s: Seq<TokenRecord>, owner: Seq<char>) -> Seq<TokenId>
    decreases s.len(),
{
    if s.len() == 0 {
        Seq::empty()
    } else if s.last().owner@ == owner {
        owned_ids(s.drop_last(), owner).push(s.last().id)
    } else {
        owned_ids(s.drop_last(), owner)
    }
}


/// Every token of the collection is owned by its creator.
pub open spec fn creators_own_all(c: NftCollection) -> bool {
    forall|i: int|
        0 <= i < c.tokens@.len() ==> (#[trigger] c.tokens@[i]).owner == c.tokens@[i].metadata.creator
}

/// No two tokens of the collection share an id.
pub open spec fn ids_distinct(c: NftCollection) -> bool {
    forall|i: int, j: int|
        0 <= i < c.tokens@.len() && 0 <= j < c.tokens@.len() && i != j ==> (#[trigger] c.tokens@[i]).id
            != (#[trigger] c.tokens@[j]).id
}

/// A well-formed collection never holds two tokens with the same id.
pub proof fn lemma_ids_distinct(c: NftCollection)
    requires
        c.wf(),
    ensures
        ids_distinct(c),
{
}

/// Minting preserves the uniqueness of ids and, over a run of mints alone,
/// the fact that each token is owned by its creator: the new id is held by no
/// earlier token.
pub proof fn lemma_mint_uniqueness(
    before: NftCollection,
    after: NftCollection,
    metadata: NftMetadata,
    royalty_config: Option<RoyaltyConfig>,
    id: TokenId,
)
    requires
        before.wf(),
        creators_own_all(before),
        before.minted(after, metadata, royalty_config, id),
    ensures
        after.wf(),
        ids_distinct(after),
        creators_own_all(after),
        forall|i: int| 0 <= i < before.tokens@.len() ==> (#[trigger] before.tokens@[i]).id != id,
        after.record(id).owner == metadata.creator,
{
    assert forall|i: int| 0 <= i < before.tokens@.len() implies after.tokens@[i] == before.tokens@[i] by {}
    assert(after.wf());
}

/// A transfer whose `from` is not the recorded owner is refused as
/// unauthorized; the contract of `transfer` then leaves the collection as it
/// was.
pub proof fn lemma_unauthorized_transfer_refused(
    c: NftCollection,
    caller: Address,
    id: TokenId,
    from: Address,
    sale_price: Option<Amount>,
)
    requires
        c.wf(),
        c.has_token(id),
        c.record(id).owner@ != from@,
    ensures
        c.transfer_error(caller, id, from, sale_price) == Some(NftError::Unauthorized),
{
}

/// A token that is not transferable is never moved: every transfer of it
/// fails, and one by its owner fails as not transferable.
pub proof fn lemma_non_transferable_never_moves(
    c: NftCollection,
    caller: Address,
    id: TokenId,
    from: Address,
    sale_price: Option<Amount>,
)
    requires
        c.wf(),
        c.has_token(id),
        !c.record(id).metadata.transferable,
    ensures
        c.transfer_error(caller, id, from, sale_price) is Some,
        caller@ == from@ && c.record(id).owner@ == from@ ==> c.transfer_error(
            caller,
            id,
            from,
            sale_price,
        ) == Some(NftError::NotTransferable),
{
}

/// Conservation of a sale: for an outcome that follows a sale at `v`, fee
/// and royalties take a part of `v`, and the seller's remainder `v` minus
/// that part is itself an amount between zero and `v`, so the three add up
/// to `v` exactly.
pub proof fn lemma_sale_conserved(
    out: TransferOutcome,
    v: Amount,
    fee_collector: Address,
    fee_basis_points: u16,
    royalty: Option<RoyaltyConfig>,
)
    requires
        out.follows_sale(Some(v), fee_collector, fee_basis_points, royalty),
    ensures
        0 <= out.paid_out() <= v,
        0 <= v - out.paid_out() <= v,
{
    if let Some(rs) = out.royalties {
        lemma_payments_nonneg(rs@);
    }
}

impl TransferOutcome {
    /// Fee and royalties paid out of the sale, in all.
    pub open spec fn paid_out(self) -> int {
        let fee = match self.program_fee {
            Some(f) => f.1 as int,
            None => 0,
        };
        let royalties = match self.royalties {
            Some(rs) => paid_sum(payments(rs@)),
            None => 0,
        };
        fee + royalties
    }

    /// The outcome pays what a sale at `sale_price` owes: nothing without a
    /// price; otherwise the fee to the collector, each royalty in order, and
    /// never more than the price, the rest being the seller's.
    pub open spec fn follows_sale(
        self,
        sale_price: Option<Amount>,
        fee_collector: Address,
        fee_basis_points: u16,
        royalty: Option<RoyaltyConfig>,
    ) -> bool {
        match sale_price {
            None => self.royalties is None && self.program_fee is None,
            Some(v) => {
                &&& self.program_fee == Some(
                    (fee_collector, share_of(v as int, fee_basis_points as int) as u64),
                )
                &&& royalty is None ==> self.royalties is None
                &&& royalty matches Some(c) ==> (self.royalties matches Some(rs) && payments(rs@)
                    == royalty_entries(v as int, c))
                &&& self.paid_out() <= v
            },
        }
    }
}

} // verus!
