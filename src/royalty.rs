use crate::bps::{lemma_share_nonneg, share_of, split};
use crate::types::{Address, Amount, NftError, RoyaltyConfig};
use vstd::prelude::*;

verus! {

/// Sum of the basis points of a list of secondary recipients.
pub open spec fn bps_sum(s: Seq<(Address, u16)>) -> int
    decreases s.len(),
{
    if s.len() == 0 {
        0
    } else {
        bps_sum(s.drop_last()) + s.last().1
    }
}

/// Basis points that a royalty configuration takes from a sale, in all.
pub open spec fn royalty_bps_total(cfg: RoyaltyConfig) -> int {
    cfg.royalty_percentage + bps_sum(cfg.secondary_recipients@)
}

/// A configuration may be stored only if it takes at most the whole price.
pub open spec fn royalty_config_valid(cfg: RoyaltyConfig) -> bool {
    royalty_bps_total(cfg) <= 10000
}

/// Sum of the amounts of a list of payments.
pub open spec fn paid_sum(s: Seq<(Address, int)>) -> int
    decreases s.len(),
{
    if s.len() == 0 {
        0
    } else {
        paid_sum(s.drop_last()) + s.last().1
    }
}

/// A list of payments seen with mathematical amounts.
pub open spec fn payments(s: Seq<(Address, Amount)>) -> Seq<(Address, int)> {
    s.map_values(|p: (Address, Amount)| (p.0, p.1 as int))
}

/// The royalties owed on a sale at `price`: the creator first, then each
/// secondary recipient in its configured order, zero shares included.
pub open spec fn royalty_entries(price: int, cfg: RoyaltyConfig) -> Seq<(Address, int)> {
    seq![(cfg.creator, share_of(price, cfg.royalty_percentage as int))]
        + cfg.secondary_recipients@.map_values(
        |p: (Address, u16)| (p.0, share_of(price, p.1 as int)),
    )
}

/// Royalty paid on a sale at `price` under an optional configuration.
pub open spec fn royalty_paid(price: int, cfg: Option<RoyaltyConfig>) -> int {
    match cfg {
        Some(c) => paid_sum(royalty_entries(price, c)),
        None => 0,
    }
}

/// The fee and all royalties together do not exceed the price.
pub open spec fn distribution_fits(price: int, fee_basis_points: int, cfg: Option<RoyaltyConfig>) -> bool {
    share_of(price, fee_basis_points) + royalty_paid(price, cfg) <= price
}

proof fn lemma_bps_sum_step(s: Seq<(Address, u16)>, i: int)
    requires
        0 <= i < s.len(),
    ensures
        bps_sum(s.take(i + 1)) == bps_sum(s.take(i)) + s[i].1,
{
    assert(s.take(i + 1).drop_last() =~= s.take(i));
}

proof fn lemma_bps_sum_prefix(s: Seq<(Address, u16)>, i: int)
    requires
        0 <= i <= s.len(),
    ensures
        bps_sum(s.take(i)) <= bps_sum(s),
    decreases s.len() - i,
{
    if i < s.len() {
        lemma_bps_sum_step(s, i);
        lemma_bps_sum_prefix(s, i + 1);
    } else {
        assert(s.take(i) =~= s);
    }
}

proof fn lemma_paid_sum_step(s: Seq<(Address, int)>, i: int)
    requires
        0 <= i < s.len(),
    ensures
        paid_sum(s.take(i + 1)) == paid_sum(s.take(i)) + s[i].1,
{
    assert(s.take(i + 1).drop_last() =~= s.take(i));
}

proof fn lemma_paid_sum_prefix(s: Seq<(Address, int)>, i: int)
    requires
        0 <= i <= s.len(),
        forall|j: int| 0 <= j < s.len() ==> s[j].1 >= 0,
    ensures
        paid_sum(s.take(i)) <= paid_sum(s),
    decreases s.len() - i,
{
    if i < s.len() {
        lemma_paid_sum_step(s, i);
        lemma_paid_sum_prefix(s, i + 1);
    } else {
        assert(s.take(i) =~= s);
    }
}

/// Amounts of an `Amount` list never sum below zero.
pub proof fn lemma_payments_nonneg(s: Seq<(Address, Amount)>)
    ensures
        paid_sum(payments(s)) >= 0,
    decreases s.len(),
{
    if s.len() > 0 {
        assert(payments(s).drop_last() =~= payments(s.drop_last()));
        lemma_payments_nonneg(s.drop_last());
    }
}

proof fn lemma_entries_nonneg(price: int, cfg: RoyaltyConfig)
    requires
        0 <= price,
    ensures
        forall|j: int|
            0 <= j < royalty_entries(price, cfg).len() ==> #[trigger] royalty_entries(price, cfg)[j].1
                >= 0,
{
    assert forall|j: int| 0 <= j < royalty_entries(price, cfg).len() implies #[trigger] royalty_entries(
        price,
        cfg,
    )[j].1 >= 0 by {
        let e = royalty_entries(price, cfg);
        if j == 0 {
            lemma_share_nonneg(price, cfg.royalty_percentage as int);
        } else {
            let p = cfg.secondary_recipients@[j - 1];
            assert(e[j].1 == share_of(price, p.1 as int));
            lemma_share_nonneg(price, p.1 as int);
        }
    }
}

/// Decides whether a royalty configuration may be stored.
pub fn validate_royalty_config(cfg: &RoyaltyConfig) -> (r: bool)
    ensures
        r == royalty_config_valid(*cfg),
{
    let s = &cfg.secondary_recipients;
    let mut total: u64 = cfg.royalty_percentage as u64;
    if total > 10000 {
        proof {
            lemma_bps_sum_prefix(s@, 0);
            assert(s@.take(0) =~= Seq::<(Address, u16)>::empty());
        }
        return false;
    }
    let mut i: usize = 0;
    proof {
        assert(s@.take(0) =~= Seq::<(Address, u16)>::empty());
    }
    while i < s.len()
        invariant
            0 <= i <= s@.len(),
            total <= 10000,
            total == cfg.royalty_percentage + bps_sum(s@.take(i as int)),
            s == &cfg.secondary_recipients,
        decreases s@.len() - i,
    {
        proof {
            lemma_bps_sum_step(s@, i as int);
        }
        total = total + s[i].1 as u64;
        i = i + 1;
        if total > 10000 {
            proof {
                lemma_bps_sum_prefix(s@, i as int);
            }
            return false;
        }
    }
    proof {
        assert(s@.take(i as int) =~= s@);
    }
    true
}

} // verus!

verus! {

/// How a sale price is divided: royalties, the collection fee, and what is
/// left for the seller.
#[derive(Debug)]
pub struct Distribution {
    pub royalties: Option<Vec<(Address, Amount)>>,
    pub fee: Option<(Address, Amount)>,
    pub seller_share: Amount,
}

impl Distribution {
    /// Fee and royalties together.
    pub open spec fn paid_out(self) -> int {
        let fee = match self.fee {
            Some(f) => f.1 as int,
            None => 0,
        };
        let royalties = match self.royalties {
            Some(rs) => paid_sum(payments(rs@)),
            None => 0,
        };
        fee + royalties
    }
}

/// Computes the royalty payments of a sale at `price` on top of `already`
/// spent, failing when the two together would exceed the price.
fn royalty_payments(price: Amount, cfg: &RoyaltyConfig, already: Amount) -> (r: Result<
    (Vec<(Address, Amount)>, Amount),
    NftError,
>)
    requires
        already <= price,
    ensures
        r is Ok <==> already + paid_sum(royalty_entries(price as int, *cfg)) <= price,
        r matches Err(e) ==> e == NftError::ArithmeticOverflow,
        r matches Ok(p) ==> (payments(p.0@) == royalty_entries(price as int, *cfg) && p.1 == already
            + paid_sum(royalty_entries(price as int, *cfg))),
{
    let ghost entries = royalty_entries(price as int, *cfg);
    proof {
        lemma_entries_nonneg(price as int, *cfg);
        lemma_paid_sum_step(entries, 0);
        lemma_paid_sum_prefix(entries, 1);
        assert(entries.take(0) =~= Seq::<(Address, int)>::empty());
    }
    let first = match split(price, cfg.royalty_percentage) {
        Ok(a) => a,
        Err(e) => {
            return Err(e);
        },
    };
    if first > price - already {
        return Err(NftError::ArithmeticOverflow);
    }
    let mut spent: u64 = already + first;
    let mut out: Vec<(Address, Amount)> = Vec::new();
    out.push((cfg.creator.clone(), first));
    proof {
        assert(payments(out@) =~= entries.take(1));
    }
    let secs = &cfg.secondary_recipients;
    let mut i: usize = 0;
    while i < secs.len()
        invariant
            0 <= i <= secs@.len(),
            already <= spent <= price,
            secs == &cfg.secondary_recipients,
            entries == royalty_entries(price as int, *cfg),
            entries.len() == secs@.len() + 1,
            forall|j: int| 0 <= j < entries.len() ==> #[trigger] entries[j].1 >= 0,
            spent == already + paid_sum(entries.take(i + 1)),
            payments(out@) == entries.take(i + 1),
        decreases secs@.len() - i,
    {
        let pair = &secs[i];
        proof {
            assert(entries[i + 1] == (pair.0, share_of(price as int, pair.1 as int)));
            lemma_paid_sum_step(entries, i + 1);
            lemma_paid_sum_prefix(entries, i + 2);
        }
        let amt = match split(price, pair.1) {
            Ok(a) => a,
            Err(e) => {
                return Err(e);
            },
        };
        if amt > price - spent {
            return Err(NftError::ArithmeticOverflow);
        }
        spent = spent + amt;
        out.push((pair.0.clone(), amt));
        proof {
            assert(payments(out@) =~= entries.take(i + 2));
        }
        i = i + 1;
    }
    proof {
        assert(entries.take(i + 1) =~= entries);
    }
    Ok((out, spent))
}

/// Divides a sale price between the collection fee, the royalties of the
/// token's configuration and the seller. A transfer without a price divides
/// nothing. Fails, with no partial result, when fee and royalties together
/// would exceed the price.
pub fn distribute(
    sale_price: Option<Amount>,
    fee_basis_points: u16,
    fee_collector: &Address,
    royalty_config: &Option<RoyaltyConfig>,
) -> (r: Result<Distribution, NftError>)
    ensures
        sale_price is None ==> (r matches Ok(d) && d.royalties is None && d.fee is None
            && d.seller_share == 0),
        sale_price matches Some(v) ==> (r is Ok <==> distribution_fits(
            v as int,
            fee_basis_points as int,
            *royalty_config,
        )),
        r matches Err(e) ==> e == NftError::ArithmeticOverflow,
        r matches Ok(d) ==> match sale_price {
            None => true,
            Some(v) => {
                &&& d.fee == Some((*fee_collector, share_of(v as int, fee_basis_points as int) as u64))
                &&& royalty_config is None ==> d.royalties is None
                &&& royalty_config matches Some(c) ==> (d.royalties matches Some(rs) && payments(rs@)
                    == royalty_entries(v as int, *c))
                &&& d.seller_share == v - share_of(v as int, fee_basis_points as int) - royalty_paid(
                    v as int,
                    *royalty_config,
                )
                &&& d.paid_out() + d.seller_share == v
            },
        },
{
    let v = match sale_price {
        None => {
            return Ok(Distribution { royalties: None, fee: None, seller_share: 0 });
        },
        Some(v) => v,
    };
    proof {
        match royalty_config {
            Some(c) => {
                lemma_entries_nonneg(v as int, *c);
                lemma_paid_sum_prefix(royalty_entries(v as int, *c), 0);
                assert(royalty_entries(v as int, *c).take(0) =~= Seq::<(Address, int)>::empty());
            },
            None => {},
        }
    }
    let fee = match split(v, fee_basis_points) {
        Ok(f) => f,
        Err(e) => {
            return Err(e);
        },
    };
    if fee > v {
        return Err(NftError::ArithmeticOverflow);
    }
    match royalty_config {
        None => Ok(
            Distribution {
                royalties: None,
                fee: Some((fee_collector.clone(), fee)),
                seller_share: v - fee,
            },
        ),
        Some(c) => match royalty_payments(v, c, fee) {
            Ok((rs, spent)) => Ok(
                Distribution {
                    royalties: Some(rs),
                    fee: Some((fee_collector.clone(), fee)),
                    seller_share: v - spent,
                },
            ),
            Err(e) => Err(e),
        },
    }
}

} // verus!
