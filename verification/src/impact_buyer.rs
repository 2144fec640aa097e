//! The executable impact marketplace: listing, escrow, sale and
//! administration.
//!
//! Every method of [`ImpactBuyerContract`] is proved to take the step that
//! the spec function of the same name on [`MarketState`] describes.
//!
//! The caller vouches for the acting address: the host must have checked the
//! authorization of `admin`, `seller`, `caller` or `buyer` before it calls a
//! method that acts for them. What a method learns from other contracts (the
//! owner of an NFT, a balance, the ledger time) the host hands in; what a
//! step moves (NFTs, payments) and publishes, the method hands back for the
//! host to carry out.

use vstd::prelude::*;
use crate::address::Address;
use crate::effects::{BalanceQuery, Event, Listing, NftTransfer, Settlement, TokenTransfer};
use crate::fees::{calculate_fee, lemma_fee_bounds, MAX_FEE_PERCENTAGE};
use crate::market_state::{
    delisted_count, for_sale, is_sale_of, lemma_delisted_count_bound, lemma_delisted_count_push,
    lemma_delisted_count_update, listed_by, made_by, product_id_of, purchase_id_of, values_of,
    MarketState,
};
use crate::types::{BatchItem, ContractConfig, ErrorCode, ImpactProduct, Purchase};

verus! {

/// The records of a marketplace, as they are held in memory.
struct Ledger {
    address: Address,
    admin: Option<Address>,
    config: ContractConfig,
    products: Vec<ImpactProduct>,
    purchases: Vec<Purchase>,
}

impl View for Ledger {
    type V = MarketState;

    closed spec fn view(&self) -> MarketState {
        MarketState {
            address: self.address,
            admin: self.admin,
            config: self.config,
            products: self.products@,
            purchases: self.purchases@,
        }
    }
}

impl Ledger {
    /// The records of a freshly deployed marketplace at `address`.
    fn deployed(address: Address) -> (ledger: Ledger)
        ensures
            ledger@ == MarketState::deployed(address),
    {
        Ledger {
            address,
            admin: None,
            config: ContractConfig { fee_percentage: 0, is_paused: false },
            products: Vec::new(),
            purchases: Vec::new(),
        }
    }
}

/// The executable marketplace.
///
/// Its records satisfy the invariant of marketplaces at all times. A method
/// that changes them takes them out, works on them and puts them back, and
/// the invariant is proved of what is put back.
pub struct ImpactBuyerContract {
    ledger: Ledger,
}

impl View for ImpactBuyerContract {
    type V = MarketState;

    closed spec fn view(&self) -> MarketState {
        self.ledger@
    }
}

impl ImpactBuyerContract {
    #[verifier::type_invariant]
    spec fn inv(&self) -> bool {
        self.ledger@.wf()
    }

    /// Takes the records out to work on them, leaving those of a fresh
    /// deployment behind.
    fn take_ledger(&mut self) -> (ledger: Ledger)
        ensures
            ledger@ == old(self)@,
            ledger@.wf(),
            final(self)@ == MarketState::deployed(old(self)@.address),
    {
        proof {
            use_type_invariant(&*self);
        }
        let mut ledger = Ledger::deployed(self.ledger.address);
        core::mem::swap(&mut self.ledger, &mut ledger);
        ledger
    }

    /// Puts records back.
    fn put_ledger(&mut self, ledger: Ledger)
        requires
            ledger@.wf(),
        ensures
            final(self)@ == ledger@,
    {
        let mut ledger = ledger;
        core::mem::swap(&mut self.ledger, &mut ledger);
    }

    /// A freshly deployed marketplace at `address`.
    pub fn new(address: Address) -> (contract: Self)
        ensures
            contract@ == MarketState::deployed(address),
            contract@.wf(),
    {
        ImpactBuyerContract { ledger: Ledger::deployed(address) }
    }

    /// Sets the administrator and the fee; refused on every call but the
    /// first, and for a fee above the cap.
    pub fn initialize(&mut self, admin: Address, fee_percentage: u32) -> (r: Result<(), ErrorCode>)
        ensures
            match old(self)@.initialize(admin, fee_percentage) {
                Ok(next) => r == Ok::<(), ErrorCode>(()) && final(self)@ == next,
                Err(e) => r == Err::<(), ErrorCode>(e) && final(self)@ == old(self)@,
            },
            final(self)@.wf(),
    {
        proof {
            use_type_invariant(&*self);
        }
        if self.ledger.admin.is_some() {
            return Err(ErrorCode::AlreadyInitialized);
        }
        if fee_percentage > MAX_FEE_PERCENTAGE {
            return Err(ErrorCode::FeePercentageTooHigh);
        }
        let mut ledger = self.take_ledger();
        ledger.admin = Some(admin);
        ledger.config = ContractConfig { fee_percentage, is_paused: false };
        self.put_ledger(ledger);
        Ok(())
    }

    /// Whether `caller` is the administrator.
    fn is_admin(&self, caller: Address) -> (r: bool)
        ensures
            r == (self@.admin == Some(caller)),
    {
        match self.ledger.admin {
            Some(admin) => admin == caller,
            None => false,
        }
    }

    /// Whether the marketplace is paused.
    fn is_paused(&self) -> (r: bool)
        ensures
            r == self@.config.is_paused,
    {
        self.ledger.config.is_paused
    }

    /// Refuses when no call that changes the market may go ahead: before
    /// initialization and while paused.
    pub fn ensure_not_paused(&self) -> (r: Result<(), ErrorCode>)
        ensures
            match self@.closed_for_business() {
                Some(e) => r == Err::<(), ErrorCode>(e),
                None => r == Ok::<(), ErrorCode>(()),
            },
    {
        if self.ledger.admin.is_none() {
            Err(ErrorCode::NotInitialized)
        } else if self.is_paused() {
            Err(ErrorCode::ContractPaused)
        } else {
            Ok(())
        }
    }

    /// Refuses an administrative call by anyone but the administrator.
    fn ensure_admin(&self, caller: Address) -> (r: Result<(), ErrorCode>)
        ensures
            match self@.not_for(caller) {
                Some(e) => r == Err::<(), ErrorCode>(e),
                None => r == Ok::<(), ErrorCode>(()),
            },
    {
        if self.ledger.admin.is_none() {
            Err(ErrorCode::NotInitialized)
        } else if !self.is_admin(caller) {
            Err(ErrorCode::Unauthorized)
        } else {
            Ok(())
        }
    }

    /// Pauses the marketplace. `Ok(false)` when it was paused already.
    pub fn pause_contract(&mut self, admin: Address) -> (r: Result<bool, ErrorCode>)
        ensures
            match old(self)@.pause_contract(admin) {
                Ok((next, changed)) => r == Ok::<bool, ErrorCode>(changed) && final(self)@ == next,
                Err(e) => r == Err::<bool, ErrorCode>(e) && final(self)@ == old(self)@,
            },
            final(self)@.wf(),
    {
        proof {
            use_type_invariant(&*self);
        }
        match self.ensure_admin(admin) {
            Err(e) => {
                return Err(e);
            },
            Ok(()) => {},
        }
        if self.ledger.config.is_paused {
            return Ok(false);
        }
        let mut ledger = self.take_ledger();
        ledger.config.is_paused = true;
        self.put_ledger(ledger);
        Ok(true)
    }

    /// Resumes the marketplace. `Ok(false)` when it was running already.
    pub fn unpause_contract(&mut self, admin: Address) -> (r: Result<bool, ErrorCode>)
        ensures
            match old(self)@.unpause_contract(admin) {
                Ok((next, changed)) => r == Ok::<bool, ErrorCode>(changed) && final(self)@ == next,
                Err(e) => r == Err::<bool, ErrorCode>(e) && final(self)@ == old(self)@,
            },
            final(self)@.wf(),
    {
        proof {
            use_type_invariant(&*self);
        }
        match self.ensure_admin(admin) {
            Err(e) => {
                return Err(e);
            },
            Ok(()) => {},
        }
        if !self.ledger.config.is_paused {
            return Ok(false);
        }
        let mut ledger = self.take_ledger();
        ledger.config.is_paused = false;
        self.put_ledger(ledger);
        Ok(true)
    }

    /// Sets the fee to `new_fee_percentage` parts per thousand.
    pub fn update_fee_percentage(&mut self, admin: Address, new_fee_percentage: u32) -> (r: Result<
        bool,
        ErrorCode,
    >)
        ensures
            match old(self)@.update_fee_percentage(admin, new_fee_percentage) {
                Ok(next) => r == Ok::<bool, ErrorCode>(true) && final(self)@ == next,
                Err(e) => r == Err::<bool, ErrorCode>(e) && final(self)@ == old(self)@,
            },
            final(self)@.wf(),
    {
        proof {
            use_type_invariant(&*self);
        }
        match self.ensure_admin(admin) {
            Err(e) => {
                return Err(e);
            },
            Ok(()) => {},
        }
        if new_fee_percentage > MAX_FEE_PERCENTAGE {
            return Err(ErrorCode::FeePercentageTooHigh);
        }
        let mut ledger = self.take_ledger();
        ledger.config.fee_percentage = new_fee_percentage;
        self.put_ledger(ledger);
        Ok(true)
    }

    /// The settings, once the marketplace is initialized.
    pub fn get_config(&self) -> (r: Result<ContractConfig, ErrorCode>)
        ensures
            r == (if self@.admin is Some {
                Ok::<ContractConfig, ErrorCode>(self@.config)
            } else {
                Err::<ContractConfig, ErrorCode>(ErrorCode::NotInitialized)
            }),
    {
        if self.ledger.admin.is_some() {
            Ok(self.ledger.config)
        } else {
            Err(ErrorCode::NotInitialized)
        }
    }

    /// The administrator, once the marketplace is initialized.
    pub fn get_admin(&self) -> (r: Result<Address, ErrorCode>)
        ensures
            r == (match self@.admin {
                Some(admin) => Ok::<Address, ErrorCode>(admin),
                None => Err::<Address, ErrorCode>(ErrorCode::NotInitialized),
            }),
    {
        match self.ledger.admin {
            Some(admin) => Ok(admin),
            None => Err(ErrorCode::NotInitialized),
        }
    }

    /// How many products have been listed so far; also the identifier of the
    /// latest.
    pub fn product_count(&self) -> (n: u32)
        ensures
            n == self@.products.len(),
    {
        proof {
            use_type_invariant(self);
        }
        self.ledger.products.len() as u32
    }

    /// Lists an NFT for sale.
    ///
    /// `nft_owner` is the owner of `nft_token_id` as `nft_contract` reports
    /// it at the time of the call.
    pub fn list_product(
        &mut self,
        seller: Address,
        price: i128,
        token: Address,
        nft_contract: Address,
        nft_token_id: String,
        impact_metrics: Vec<(String, String)>,
        nft_owner: Address,
    ) -> (r: Result<Listing, ErrorCode>)
        requires
            old(self)@.products.len() < u32::MAX,
        ensures
            match old(self)@.list_product(
                seller,
                price,
                token,
                nft_contract,
                nft_token_id,
                impact_metrics,
                nft_owner,
            ) {
                Ok((next, listing)) => r == Ok::<Listing, ErrorCode>(listing) && final(self)@
                    == next,
                Err(e) => r == Err::<Listing, ErrorCode>(e) && final(self)@ == old(self)@,
            },
            final(self)@.wf(),
    {
        proof {
            use_type_invariant(&*self);
        }
        match self.ensure_not_paused() {
            Err(e) => {
                return Err(e);
            },
            Ok(()) => {},
        }
        if nft_owner != seller {
            return Err(ErrorCode::Unauthorized);
        }
        let mut ledger = self.take_ledger();
        let new_product_id: u32 = ledger.products.len() as u32 + 1;
        let escrow = NftTransfer {
            nft_contract,
            nft_token_id: nft_token_id.clone(),
            from: seller,
            to: ledger.address,
        };
        let product = ImpactProduct {
            id: new_product_id,
            price,
            seller,
            token,
            nft_contract,
            nft_token_id,
            impact_metrics,
            is_listed: true,
        };
        proof {
            lemma_delisted_count_push(ledger.products@, product);
        }
        ledger.products.push(product);
        self.put_ledger(ledger);
        Ok(
            Listing {
                product_id: new_product_id,
                escrow,
                event: Event::ProductListed { seller, product_id: new_product_id },
            },
        )
    }

    /// Where product `product_id` stands among the records, if it exists.
    fn product_index(&self, product_id: u32) -> (r: Option<usize>)
        ensures
            match r {
                Some(index) => {
                    &&& index == product_id - 1
                    &&& self@.product(product_id) == Some(self@.products[index as int])
                },
                None => self@.product(product_id) is None,
            },
    {
        if product_id == 0 || product_id as usize > self.ledger.products.len() {
            None
        } else {
            Some((product_id - 1) as usize)
        }
    }

    /// Takes a product off the market and hands its NFT back to the seller.
    ///
    /// `caller` is the seller or the administrator. `Ok(None)` when the
    /// product was off the market already; `Ok(Some(release))` when it was
    /// taken off, with the transfer that returns the NFT.
    pub fn unlist_product(&mut self, caller: Address, product_id: u32) -> (r: Result<
        Option<NftTransfer>,
        ErrorCode,
    >)
        ensures
            match old(self)@.unlist_product(caller, product_id) {
                Ok((next, release)) => r == Ok::<Option<NftTransfer>, ErrorCode>(release)
                    && final(self)@ == next,
                Err(e) => r == Err::<Option<NftTransfer>, ErrorCode>(e)
                    && final(self)@ == old(self)@,
            },
            final(self)@.wf(),
    {
        proof {
            use_type_invariant(&*self);
        }
        match self.ensure_not_paused() {
            Err(e) => {
                return Err(e);
            },
            Ok(()) => {},
        }
        let index = match self.product_index(product_id) {
            None => {
                return Err(ErrorCode::ProductNotFound);
            },
            Some(index) => index,
        };
        let product = &self.ledger.products[index];
        if product.seller != caller && !self.is_admin(caller) {
            return Err(ErrorCode::Unauthorized);
        }
        if !product.is_listed {
            return Ok(None);
        }
        let release = NftTransfer {
            nft_contract: product.nft_contract,
            nft_token_id: product.nft_token_id.clone(),
            from: self.ledger.address,
            to: product.seller,
        };
        let mut ledger = self.take_ledger();
        proof {
            lemma_delisted_count_update(
                ledger.products@,
                index as int,
                ImpactProduct { is_listed: false, ..ledger.products@[index as int] },
            );
        }
        ledger.products[index].is_listed = false;
        self.put_ledger(ledger);
        Ok(Some(release))
    }

    /// Changes the price, the impact metrics or both of a listed product.
    pub fn update_product(
        &mut self,
        seller: Address,
        product_id: u32,
        price: Option<i128>,
        impact_metrics: Option<Vec<(String, String)>>,
    ) -> (r: Result<bool, ErrorCode>)
        ensures
            match old(self)@.update_product(seller, product_id, price, impact_metrics) {
                Ok(next) => r == Ok::<bool, ErrorCode>(true) && final(self)@ == next,
                Err(e) => r == Err::<bool, ErrorCode>(e) && final(self)@ == old(self)@,
            },
            final(self)@.wf(),
    {
        proof {
            use_type_invariant(&*self);
        }
        match self.ensure_not_paused() {
            Err(e) => {
                return Err(e);
            },
            Ok(()) => {},
        }
        let index = match self.product_index(product_id) {
            None => {
                return Err(ErrorCode::ProductNotFound);
            },
            Some(index) => index,
        };
        let product = &self.ledger.products[index];
        if product.seller != seller {
            return Err(ErrorCode::Unauthorized);
        }
        if !product.is_listed {
            return Err(ErrorCode::ProductNotListed);
        }
        let mut ledger = self.take_ledger();
        let ghost before = ledger.products@;
        match price {
            Some(new_price) => {
                ledger.products[index].price = new_price;
            },
            None => {},
        }
        match impact_metrics {
            Some(new_metrics) => {
                ledger.products[index].impact_metrics = new_metrics;
            },
            None => {},
        }
        proof {
            lemma_delisted_count_update(before, index as int, ledger.products@[index as int]);
            assert(ledger.products@ =~= before.update(index as int, ledger.products@[index as int]));
        }
        self.put_ledger(ledger);
        Ok(true)
    }

    /// Says which balance decides whether `buyer` can buy product
    /// `product_id`, or why the purchase is refused whatever the balance.
    pub fn quote_purchase(&self, buyer: Address, product_id: u32) -> (r: Result<
        BalanceQuery,
        ErrorCode,
    >)
        ensures
            r == self@.quote_purchase(buyer, product_id),
    {
        match self.ensure_not_paused() {
            Err(e) => {
                return Err(e);
            },
            Ok(()) => {},
        }
        let index = match self.product_index(product_id) {
            None => {
                return Err(ErrorCode::ProductNotFound);
            },
            Some(index) => index,
        };
        let product = &self.ledger.products[index];
        if !product.is_listed {
            return Err(ErrorCode::ProductNotListed);
        }
        if product.seller == buyer {
            return Err(ErrorCode::CannotBuyOwnNFT);
        }
        Ok(BalanceQuery { token: product.token, owner: buyer, at_least: product.price })
    }

    /// Sells a listed product to `buyer`.
    ///
    /// `buyer_balance` is the buyer's balance in the product's payment
    /// token, `timestamp` the ledger time of the call.
    pub fn buy_product(
        &mut self,
        buyer: Address,
        product_id: u32,
        buyer_balance: i128,
        timestamp: u64,
    ) -> (r: Result<Settlement, ErrorCode>)
        ensures
            match old(self)@.buy_product(buyer, product_id, buyer_balance, timestamp) {
                Ok((next, settlement)) => r == Ok::<Settlement, ErrorCode>(settlement)
                    && final(self)@ == next,
                Err(e) => r == Err::<Settlement, ErrorCode>(e) && final(self)@ == old(self)@,
            },
            final(self)@.wf(),
    {
        proof {
            use_type_invariant(&*self);
        }
        let query = match self.quote_purchase(buyer, product_id) {
            Err(e) => {
                return Err(e);
            },
            Ok(query) => query,
        };
        if buyer_balance < query.at_least {
            return Err(ErrorCode::InsufficientFunds);
        }
        let admin = self.ledger.admin.unwrap();
        let index = (product_id - 1) as usize;
        let product = &self.ledger.products[index];
        let total_price = product.price;
        proof {
            lemma_fee_bounds(total_price as int, self.ledger.config.fee_percentage as int);
        }
        let fee = calculate_fee(total_price, self.ledger.config.fee_percentage);
        let seller_amount = total_price - fee;
        let seller_payment = TokenTransfer {
            token: product.token,
            from: buyer,
            to: product.seller,
            amount: seller_amount,
        };
        let fee_payment = TokenTransfer { token: product.token, from: buyer, to: admin, amount: fee };
        let delivery = NftTransfer {
            nft_contract: product.nft_contract,
            nft_token_id: product.nft_token_id.clone(),
            from: self.ledger.address,
            to: buyer,
        };
        let nft_contract = product.nft_contract;
        let nft_token_id = product.nft_token_id.clone();

        let mut ledger = self.take_ledger();
        let ghost before = ledger@;
        proof {
            lemma_delisted_count_update(
                ledger.products@,
                index as int,
                ImpactProduct { is_listed: false, ..ledger.products@[index as int] },
            );
            lemma_delisted_count_bound(before.with_delisted(product_id).products);
        }
        ledger.products[index].is_listed = false;
        let new_purchase_id: u32 = ledger.purchases.len() as u32 + 1;
        ledger.purchases.push(
            Purchase {
                id: new_purchase_id,
                product_id,
                buyer,
                total_price,
                platform_fee: fee,
                nft_contract,
                nft_token_id,
                timestamp,
            },
        );
        self.put_ledger(ledger);
        Ok(
            Settlement {
                purchase_id: new_purchase_id,
                seller_payment,
                fee_payment,
                delivery,
                event: Event::ProductBought { buyer, purchase_id: new_purchase_id },
            },
        )
    }

    /// The product with identifier `product_id`.
    pub fn get_product(&self, product_id: u32) -> (r: Option<&ImpactProduct>)
        ensures
            match r {
                Some(product) => self@.product(product_id) == Some(*product),
                None => self@.product(product_id) is None,
            },
    {
        match self.product_index(product_id) {
            Some(index) => Some(&self.ledger.products[index]),
            None => None,
        }
    }

    /// The purchase with identifier `purchase_id`.
    pub fn get_purchase(&self, purchase_id: u32) -> (r: Option<&Purchase>)
        ensures
            match r {
                Some(purchase) => self@.purchase(purchase_id) == Some(*purchase),
                None => self@.purchase(purchase_id) is None,
            },
    {
        if purchase_id == 0 || purchase_id as usize > self.ledger.purchases.len() {
            None
        } else {
            Some(&self.ledger.purchases[(purchase_id - 1) as usize])
        }
    }

    /// Every product ever listed, for sale or not, in the order of listing.
    pub fn get_all_products(&self) -> (r: Vec<&ImpactProduct>)
        ensures
            values_of(r@) == self@.products,
    {
        let mut products: Vec<&ImpactProduct> = Vec::new();
        let mut i: usize = 0;
        while i < self.ledger.products.len()
            invariant
                0 <= i <= self.ledger.products.len(),
                values_of(products@) == self.ledger.products@.take(i as int),
            decreases self.ledger.products.len() - i,
        {
            proof {
                let seen = self.ledger.products@.take(i as int);
                assert(self.ledger.products@.take(i + 1) =~= seen.push(self.ledger.products@[i as int]));
            }
            products.push(&self.ledger.products[i]);
            i += 1;
        }
        assert(self.ledger.products@.take(i as int) =~= self.ledger.products@);
        products
    }

    /// The products that are for sale, in the order of listing.
    pub fn get_active_products(&self) -> (r: Vec<&ImpactProduct>)
        ensures
            values_of(r@) == self@.active_products(),
    {
        let mut products: Vec<&ImpactProduct> = Vec::new();
        let mut i: usize = 0;
        while i < self.ledger.products.len()
            invariant
                0 <= i <= self.ledger.products.len(),
                values_of(products@) == self.ledger.products@.take(i as int).filter(for_sale()),
            decreases self.ledger.products.len() - i,
        {
            let product = &self.ledger.products[i];
            proof {
                let seen = self.ledger.products@.take(i as int);
                assert(self.ledger.products@.take(i + 1) =~= seen.push(*product));
                seen.lemma_filter_push(*product, for_sale());
            }
            if product.is_listed {
                products.push(product);
            }
            i += 1;
        }
        assert(self.ledger.products@.take(i as int) =~= self.ledger.products@);
        products
    }

    /// The products that `seller` listed, for sale or not, in the order of
    /// listing.
    pub fn get_seller_products(&self, seller: Address) -> (r: Vec<&ImpactProduct>)
        ensures
            values_of(r@) == self@.seller_products(seller),
    {
        let mut products: Vec<&ImpactProduct> = Vec::new();
        let mut i: usize = 0;
        while i < self.ledger.products.len()
            invariant
                0 <= i <= self.ledger.products.len(),
                values_of(products@) == self.ledger.products@.take(i as int).filter(
                    listed_by(seller),
                ),
            decreases self.ledger.products.len() - i,
        {
            let product = &self.ledger.products[i];
            proof {
                let seen = self.ledger.products@.take(i as int);
                assert(self.ledger.products@.take(i + 1) =~= seen.push(*product));
                seen.lemma_filter_push(*product, listed_by(seller));
            }
            if product.seller == seller {
                products.push(product);
            }
            i += 1;
        }
        assert(self.ledger.products@.take(i as int) =~= self.ledger.products@);
        products
    }

    /// The purchases that `buyer` made, in the order of purchase.
    pub fn get_buyer_purchases(&self, buyer: Address) -> (r: Vec<&Purchase>)
        ensures
            values_of(r@) == self@.buyer_purchases(buyer),
    {
        let mut purchases: Vec<&Purchase> = Vec::new();
        let mut i: usize = 0;
        while i < self.ledger.purchases.len()
            invariant
                0 <= i <= self.ledger.purchases.len(),
                values_of(purchases@) == self.ledger.purchases@.take(i as int).filter(
                    made_by(buyer),
                ),
            decreases self.ledger.purchases.len() - i,
        {
            let purchase = &self.ledger.purchases[i];
            proof {
                let seen = self.ledger.purchases@.take(i as int);
                assert(self.ledger.purchases@.take(i + 1) =~= seen.push(*purchase));
                seen.lemma_filter_push(*purchase, made_by(buyer));
            }
            if purchase.buyer == buyer {
                purchases.push(purchase);
            }
            i += 1;
        }
        assert(self.ledger.purchases@.take(i as int) =~= self.ledger.purchases@);
        purchases
    }

    /// The seller's index: the identifiers of the products that `seller`
    /// listed, in the order of listing.
    pub fn get_seller_product_ids(&self, seller: Address) -> (r: Vec<u32>)
        ensures
            r@ == self@.seller_index(seller),
    {
        let mut ids: Vec<u32> = Vec::new();
        let mut i: usize = 0;
        while i < self.ledger.products.len()
            invariant
                0 <= i <= self.ledger.products.len(),
                ids@ == self.ledger.products@.take(i as int).filter(listed_by(seller)).map_values(
                    product_id_of(),
                ),
            decreases self.ledger.products.len() - i,
        {
            let product = &self.ledger.products[i];
            proof {
                let seen = self.ledger.products@.take(i as int);
                assert(self.ledger.products@.take(i + 1) =~= seen.push(*product));
                seen.lemma_filter_push(*product, listed_by(seller));
                assert(seen.filter(listed_by(seller)).push(*product).map_values(product_id_of())
                    =~= seen.filter(listed_by(seller)).map_values(product_id_of()).push(
                    product.id,
                ));
            }
            if product.seller == seller {
                ids.push(product.id);
            }
            i += 1;
        }
        assert(self.ledger.products@.take(i as int) =~= self.ledger.products@);
        ids
    }

    /// The buyer's index: the identifiers of the purchases that `buyer`
    /// made, in the order of purchase.
    pub fn get_buyer_purchase_ids(&self, buyer: Address) -> (r: Vec<u32>)
        ensures
            r@ == self@.buyer_index(buyer),
    {
        let mut ids: Vec<u32> = Vec::new();
        let mut i: usize = 0;
        while i < self.ledger.purchases.len()
            invariant
                0 <= i <= self.ledger.purchases.len(),
                ids@ == self.ledger.purchases@.take(i as int).filter(made_by(buyer)).map_values(
                    purchase_id_of(),
                ),
            decreases self.ledger.purchases.len() - i,
        {
            let purchase = &self.ledger.purchases[i];
            proof {
                let seen = self.ledger.purchases@.take(i as int);
                assert(self.ledger.purchases@.take(i + 1) =~= seen.push(*purchase));
                seen.lemma_filter_push(*purchase, made_by(buyer));
                assert(seen.filter(made_by(buyer)).push(*purchase).map_values(purchase_id_of())
                    =~= seen.filter(made_by(buyer)).map_values(purchase_id_of()).push(
                    purchase.id,
                ));
            }
            if purchase.buyer == buyer {
                ids.push(purchase.id);
            }
            i += 1;
        }
        assert(self.ledger.purchases@.take(i as int) =~= self.ledger.purchases@);
        ids
    }

    /// Undoes the last `done` purchases of a batch, newest first: each
    /// purchase leaves the record and its product returns to the market.
    fn roll_back(
        &mut self,
        Ghost(origin): Ghost<MarketState>,
        buyer: Address,
        orders: &Vec<BatchItem>,
        done: usize,
        settlements: Vec<Settlement>,
        timestamp: u64,
    )
        requires
            origin.wf(),
            done <= orders.len(),
            origin.batch_buy_products(buyer, orders@.take(done as int), timestamp) == Ok::<
                (MarketState, Seq<Settlement>),
                ErrorCode,
            >((old(self)@, settlements@)),
        ensures
            final(self)@ == origin,
    {
        let mut settlements = settlements;
        let mut ledger = self.take_ledger();
        let mut left: usize = done;
        while left > 0
            invariant
                left <= done <= orders.len(),
                origin.batch_buy_products(buyer, orders@.take(left as int), timestamp) == Ok::<
                    (MarketState, Seq<Settlement>),
                    ErrorCode,
                >((ledger@, settlements@)),
            decreases left,
        {
            let ghost after = ledger@;
            let ghost prefix = orders@.take(left as int);
            proof {
                assert(prefix.drop_last() =~= orders@.take(left - 1));
                assert(prefix.last() == orders@[left - 1]);
            }
            let ghost earlier = origin.batch_buy_products(
                buyer,
                orders@.take(left - 1),
                timestamp,
            );
            assert(earlier is Ok);
            let ghost before = earlier->Ok_0.0;
            let product_id = orders[left - 1].product_id;
            assert(before.buy_product(
                buyer,
                product_id,
                orders@[left - 1].buyer_balance,
                timestamp,
            ) is Ok);
            let index = (product_id - 1) as usize;
            ledger.purchases.pop();
            ledger.products[index].is_listed = true;
            settlements.pop();
            proof {
                assert(ledger@.purchases =~= before.purchases);
                assert(ledger@.products =~= before.products);
                assert(settlements@ =~= earlier->Ok_0.1);
                assert(ledger@ =~= before);
            }
            left -= 1;
        }
        proof {
            assert(orders@.take(0) =~= Seq::<BatchItem>::empty());
        }
        self.put_ledger(ledger);
    }

    /// Buys the products of `orders` for `buyer`, in order. Either every
    /// purchase goes through or none does: after a refusal the marketplace
    /// is as it was before the call.
    pub fn batch_buy_products(&mut self, buyer: Address, orders: &Vec<BatchItem>, timestamp: u64) -> (r:
        Result<Vec<Settlement>, ErrorCode>)
        ensures
            match old(self)@.batch_buy_products(buyer, orders@, timestamp) {
                Ok((next, settlements)) => {
                    &&& r matches Ok(made)
                    &&& made@ == settlements
                    &&& final(self)@ == next
                },
                Err(e) => r == Err::<Vec<Settlement>, ErrorCode>(e) && final(self)@ == old(self)@,
            },
            final(self)@.wf(),
    {
        let ghost origin = self@;
        proof {
            use_type_invariant(&*self);
            assert(orders@.take(0) =~= Seq::<BatchItem>::empty());
            if origin.closed_for_business() is Some {
                origin.lemma_batch_refusal_is_final(buyer, orders@, 0, timestamp);
            }
        }
        match self.ensure_not_paused() {
            Err(e) => {
                return Err(e);
            },
            Ok(()) => {},
        }
        let mut settlements: Vec<Settlement> = Vec::new();
        let mut i: usize = 0;
        while i < orders.len()
            invariant
                0 <= i <= orders.len(),
                origin == old(self)@,
                origin.wf(),
                origin.batch_buy_products(buyer, orders@.take(i as int), timestamp) == Ok::<
                    (MarketState, Seq<Settlement>),
                    ErrorCode,
                >((self@, settlements@)),
            decreases orders.len() - i,
        {
            proof {
                assert(orders@.take(i + 1).drop_last() =~= orders@.take(i as int));
                assert(orders@.take(i + 1).last() == orders@[i as int]);
            }
            match self.buy_product(buyer, orders[i].product_id, orders[i].buyer_balance, timestamp) {
                Ok(settlement) => {
                    settlements.push(settlement);
                },
                Err(e) => {
                    proof {
                        assert(origin.batch_buy_products(buyer, orders@.take(i + 1), timestamp)
                            == Err::<(MarketState, Seq<Settlement>), ErrorCode>(e));
                        origin.lemma_batch_refusal_is_final(buyer, orders@, i + 1, timestamp);
                    }
                    self.roll_back(Ghost(origin), buyer, orders, i, settlements, timestamp);
                    return Err(e);
                },
            }
            i += 1;
        }
        proof {
            assert(orders@.take(i as int) =~= orders@);
            use_type_invariant(&*self);
        }
        Ok(settlements)
    }

    /// How many of `products` are off the market.
    fn count_delisted(products: &Vec<ImpactProduct>) -> (n: usize)
        ensures
            n == delisted_count(products@),
    {
        let mut n: usize = 0;
        let mut i: usize = 0;
        while i < products.len()
            invariant
                0 <= i <= products.len(),
                n == delisted_count(products@.take(i as int)),
                n <= i,
            decreases products.len() - i,
        {
            proof {
                let seen = products@.take(i as int);
                assert(products@.take(i + 1) =~= seen.push(products@[i as int]));
                lemma_delisted_count_push(seen, products@[i as int]);
            }
            if !products[i].is_listed {
                n += 1;
            }
            i += 1;
        }
        proof {
            assert(products@.take(i as int) =~= products@);
        }
        n
    }

    /// Whether `purchase` is the sale of one of `products`.
    fn check_sale(products: &Vec<ImpactProduct>, purchase: &Purchase) -> (r: bool)
        ensures
            r == is_sale_of(products@, *purchase),
    {
        if purchase.product_id == 0 || purchase.product_id as usize > products.len() {
            return false;
        }
        let product = &products[(purchase.product_id - 1) as usize];
        !product.is_listed && product.price == purchase.total_price && product.seller
            != purchase.buyer && product.nft_contract == purchase.nft_contract
            && product.nft_token_id == purchase.nft_token_id
    }

    /// The marketplace that holds the given records, as read back from
    /// storage: `None` when they break the invariant of marketplaces, and so
    /// are not the records of any.
    pub fn restore(
        address: Address,
        admin: Option<Address>,
        config: ContractConfig,
        products: Vec<ImpactProduct>,
        purchases: Vec<Purchase>,
    ) -> (r: Option<Self>)
        ensures
            match r {
                Some(contract) => contract@.wf() && contract@ == (MarketState {
                    address,
                    admin,
                    config,
                    products: products@,
                    purchases: purchases@,
                }),
                None => !(MarketState {
                    address,
                    admin,
                    config,
                    products: products@,
                    purchases: purchases@,
                }).wf(),
            },
    {
        let ghost state = MarketState {
            address,
            admin,
            config,
            products: products@,
            purchases: purchases@,
        };
        if config.fee_percentage > MAX_FEE_PERCENTAGE || products.len() > u32::MAX as usize {
            return None;
        }
        if admin.is_none() && (products.len() > 0 || purchases.len() > 0 || config.fee_percentage
            != 0 || config.is_paused) {
            return None;
        }
        let mut i: usize = 0;
        while i < products.len()
            invariant
                0 <= i <= products.len() <= u32::MAX,
                state.products == products@,
                forall|k: int| 0 <= k < i ==> (#[trigger] products@[k]).id == k + 1,
            decreases products.len() - i,
        {
            if products[i].id != i as u32 + 1 {
                return None;
            }
            i += 1;
        }
        if purchases.len() > Self::count_delisted(&products) {
            return None;
        }
        proof {
            lemma_delisted_count_bound(products@);
        }
        let mut sold: Vec<bool> = Vec::new();
        while sold.len() < products.len()
            invariant
                sold.len() <= products.len(),
                forall|i: int| 0 <= i < sold.len() ==> !sold@[i],
            decreases products.len() - sold.len(),
        {
            sold.push(false);
        }
        // For each product that is marked as sold, the purchase that sold it.
        let ghost mut sale: Seq<int> = Seq::new(products@.len(), |i: int| 0int);
        let mut j: usize = 0;
        while j < purchases.len()
            invariant
                0 <= j <= purchases.len() <= u32::MAX,
                state.products == products@,
                state.purchases == purchases@,
                sold.len() == products.len(),
                sale.len() == products.len(),
                forall|k: int| 0 <= k < j ==> (#[trigger] purchases@[k]).id == k + 1,
                forall|k: int| 0 <= k < j ==> state.records_sale(#[trigger] purchases@[k]),
                forall|i: int|
                    0 <= i < sold.len() && #[trigger] sold@[i] ==> 0 <= sale[i] < j
                        && purchases@[sale[i]].product_id == i + 1,
                forall|i: int, k: int|
                    0 <= i < sold.len() && !#[trigger] sold@[i] && 0 <= k < j ==> (
                    #[trigger] purchases@[k]).product_id != i + 1,
                forall|a: int, b: int|
                    0 <= a < b < j ==> (#[trigger] purchases@[a]).product_id != (
                    #[trigger] purchases@[b]).product_id,
            decreases purchases.len() - j,
        {
            if purchases[j].id != j as u32 + 1 || !Self::check_sale(&products, &purchases[j]) {
                return None;
            }
            let index = (purchases[j].product_id - 1) as usize;
            if sold[index] {
                proof {
                    assert(purchases@[sale[index as int]].product_id == purchases@[j as int].product_id);
                }
                return None;
            }
            sold.set(index, true);
            proof {
                sale = sale.update(index as int, j as int);
            }
            j += 1;
        }
        proof {
            if admin is None {
                assert(state.products =~= Seq::<ImpactProduct>::empty());
                assert(state.purchases =~= Seq::<Purchase>::empty());
                assert(state =~= MarketState::deployed(address));
            }
        }
        Some(ImpactBuyerContract { ledger: Ledger { address, admin, config, products, purchases } })
    }

    /// The marketplace's own address, under which it holds NFTs in escrow.
    pub fn address(&self) -> (a: Address)
        ensures
            a == self@.address,
    {
        self.ledger.address
    }

    /// How many purchases have been made so far; also the identifier of the
    /// latest.
    pub fn purchase_count(&self) -> (n: u32)
        ensures
            n == self@.purchases.len(),
    {
        proof {
            use_type_invariant(self);
            lemma_delisted_count_bound(self.ledger.products@);
        }
        self.ledger.purchases.len() as u32
    }
}

} // verus!
