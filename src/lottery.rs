use vstd::prelude::*;
use crate::address::Address;
use crate::oracle::{le_u64, malformed, parse_randomness, record_of, OracleRecord};
use crate::ticket::{lemma_ticket_name_injective, names_ticket, strip_nul, ticket_name};

verus! {

/// Why a transition of the lottery was refused.
#[derive(Clone, Copy, Debug, PartialEq, Eq, Structural)]
pub enum ErrorCode {
    LotteryNotOpen,
    IncorrectRandomnessAccount,
    NotAuthorized,
    RandomnessAlreadyRevealed,
    LotteryNotCompleted,
    WinnerChosen,
    RandomnessNotResolved,
    WinnerNotChosen,
    NotVerified,
    IncorrectTicket,
    NoTicket,
    /// The sale window is empty or the ticket price is zero.
    InvalidSchedule,
    /// The oracle's data is not a randomness record.
    RandomnessAccountUnreadable,
    /// A winner was asked for when no ticket had been sold.
    NoTicketsSold,
    /// The lottery is already committed to an oracle record.
    RandomnessAlreadyCommitted,
    /// One more sale would overflow the pot or the ticket count.
    SaleOverflow,
}

/// The state of one lottery, which is also the escrow of its pot.
#[derive(Clone, Copy, Debug, PartialEq, Eq)]
pub struct TokenLottery {
    pub bump: u8,
    /// The winning ticket's number; meaningful once `winner_chosen` holds.
    pub winner: u64,
    pub winner_chosen: bool,
    /// First slot of the sale window.
    pub start_time: u64,
    /// Last slot of the sale window.
    pub end_time: u64,
    /// What the sold tickets paid, held until the prize is claimed.
    pub lottery_pot_amount: u64,
    /// Tickets sold so far; also the number of the next ticket.
    pub total_tickets: u64,
    pub ticket_price: u64,
    /// The one identity that may commit randomness and choose the winner.
    pub authority: Address,
    /// The oracle record the winner will be drawn from, once committed.
    pub randomness_account: Option<Address>,
}

/// A ticket's collection mark as the token registry keeps it.
#[derive(Clone, Copy, Debug, PartialEq, Eq)]
pub struct CollectionMark {
    pub verified: bool,
    pub key: Address,
}

/// What a claimant shows of the ticket they hold.
#[derive(Clone, Debug, PartialEq, Eq)]
pub struct TicketCredential {
    /// The collection the registry lists the ticket under, if any.
    pub collection: Option<CollectionMark>,
    /// The ticket's registered name, possibly padded with zero bytes.
    pub name: Vec<u8>,
    /// How many units of the ticket the claimant holds.
    pub amount: u64,
}

/// A lottery as it is first configured: empty pot, no tickets, no commitment.
pub open spec fn configured(start_time: u64, end_time: u64, ticket_price: u64, authority: Address, bump: u8) -> TokenLottery {
    TokenLottery {
        bump,
        winner: 0,
        winner_chosen: false,
        start_time,
        end_time,
        lottery_pot_amount: 0,
        total_tickets: 0,
        ticket_price,
        authority,
        randomness_account: None,
    }
}

impl TokenLottery {
    /// Whether tickets are on sale at slot `now`.
    pub open spec fn sales_open(self, now: u64) -> bool {
        self.start_time <= now && now <= self.end_time
    }

    /// Whether one more sale keeps the pot and the ticket count within 64 bits.
    pub open spec fn can_sell(self) -> bool {
        self.lottery_pot_amount + self.ticket_price <= u64::MAX && self.total_tickets < u64::MAX
    }

    /// Whether the pot holds exactly the price of every ticket sold.
    pub open spec fn books_balanced(self) -> bool {
        self.lottery_pot_amount == self.total_tickets * self.ticket_price
    }

    /// The lottery after one more ticket is sold.
    pub open spec fn sold_one(self) -> TokenLottery {
        TokenLottery {
            lottery_pot_amount: (self.lottery_pot_amount + self.ticket_price) as u64,
            total_tickets: (self.total_tickets + 1) as u64,
            ..self
        }
    }

    /// The lottery after one call of `buy_ticket` at slot `now`, whether the
    /// sale went through or was refused.
    pub open spec fn after_call(self, now: u64) -> TokenLottery {
        if self.sales_open(now) && self.can_sell() {
            self.sold_one()
        } else {
            self
        }
    }

    /// The lottery after calls of `buy_ticket` at the slots `nows`, in order.
    pub open spec fn after_calls(self, nows: Seq<u64>) -> TokenLottery
        decreases nows.len(),
    {
        if nows.len() == 0 {
            self
        } else {
            self.after_calls(nows.drop_last()).after_call(nows.last())
        }
    }

    /// How many of the calls of `buy_ticket` at the slots `nows` sold a ticket.
    pub open spec fn successful_sales(self, nows: Seq<u64>) -> nat
        decreases nows.len(),
    {
        if nows.len() == 0 {
            0
        } else {
            let prev = self.after_calls(nows.drop_last());
            self.successful_sales(nows.drop_last()) + if prev.sales_open(nows.last()) && prev.can_sell() {
                1nat
            } else {
                0nat
            }
        }
    }

    /// The lottery after `n` more tickets are sold.
    pub open spec fn after_sales(self, n: nat) -> TokenLottery
        decreases n,
    {
        if n == 0 {
            self
        } else {
            self.after_sales((n - 1) as nat).sold_one()
        }
    }

    /// Whether `oracle` is the record this lottery committed to.
    pub open spec fn committed(self, oracle: Address) -> bool {
        self.randomness_account matches Some(k) && k@ == oracle@
    }

    /// The lottery once it has committed to the record `oracle`.
    pub open spec fn committed_to(self, oracle: Address) -> TokenLottery {
        TokenLottery { randomness_account: Some(oracle), ..self }
    }

    /// The lottery once ticket `w` has been chosen.
    pub open spec fn with_winner(self, w: u64) -> TokenLottery {
        TokenLottery { winner: w, winner_chosen: true, ..self }
    }

    /// The lottery once its pot has been paid out.
    pub open spec fn paid_out(self) -> TokenLottery {
        TokenLottery { lottery_pot_amount: 0, ..self }
    }
}

/// Whether the randomness record in `data` was seeded by the slot just before
/// `now`, so that its value cannot be known yet.
pub open spec fn fresh_record(data: Seq<u8>, now: u64) -> bool {
    now >= 1 && le_u64(data.subrange(104, 112)) == now - 1
}

/// The decision on a commitment by `caller` at slot `now` to an oracle
/// record read as `record` (`None`: not a randomness record).
pub open spec fn commit_result(l: TokenLottery, caller: Address, now: u64, record: Option<OracleRecord>) -> Result<(), ErrorCode> {
    if caller@ != l.authority@ {
        Err(ErrorCode::NotAuthorized)
    } else if record is None {
        Err(ErrorCode::RandomnessAccountUnreadable)
    } else if now == 0 || record->Some_0.seed_slot != now - 1 {
        Err(ErrorCode::RandomnessAlreadyRevealed)
    } else if l.randomness_account is Some {
        Err(ErrorCode::RandomnessAlreadyCommitted)
    } else {
        Ok(())
    }
}

/// The decision on choosing a winner by `caller` at slot `now` from the
/// oracle record at `oracle`, read as `record`: the winning ticket, or why not.
pub open spec fn choose_result(
    l: TokenLottery,
    caller: Address,
    now: u64,
    oracle: Address,
    record: Option<OracleRecord>,
) -> Result<u64, ErrorCode> {
    if caller@ != l.authority@ {
        Err(ErrorCode::NotAuthorized)
    } else if !l.committed(oracle) {
        Err(ErrorCode::IncorrectRandomnessAccount)
    } else if now < l.end_time {
        Err(ErrorCode::LotteryNotCompleted)
    } else if l.winner_chosen {
        Err(ErrorCode::WinnerChosen)
    } else if record is None {
        Err(ErrorCode::RandomnessAccountUnreadable)
    } else if record->Some_0.value_at(now) is None {
        Err(ErrorCode::RandomnessNotResolved)
    } else if l.total_tickets == 0 {
        Err(ErrorCode::NoTicketsSold)
    } else {
        Ok((record->Some_0.value@[0] as u64 % l.total_tickets) as u64)
    }
}

/// The decision on a claim with `ticket`, for a lottery whose tickets are
/// of the collection `collection_mint`: the amount paid out, or why not.
pub open spec fn claim_result(l: TokenLottery, ticket: TicketCredential, collection_mint: Address) -> Result<u64, ErrorCode> {
    if !l.winner_chosen {
        Err(ErrorCode::WinnerNotChosen)
    } else if !(ticket.collection matches Some(c) && c.verified) {
        Err(ErrorCode::NotVerified)
    } else if ticket.collection->Some_0.key@ != collection_mint@ {
        Err(ErrorCode::IncorrectTicket)
    } else if strip_nul(ticket.name@) != ticket_name(l.winner as nat) {
        Err(ErrorCode::IncorrectTicket)
    } else if ticket.amount == 0 {
        Err(ErrorCode::NoTicket)
    } else {
        Ok(l.lottery_pot_amount)
    }
}

/// Configures a lottery that sells tickets at `ticket_price` from slot
/// `start_time` through slot `end_time`, administered by `authority`.
pub fn initialize_config(
    start_time: u64,
    end_time: u64,
    ticket_price: u64,
    authority: Address,
    bump: u8,
) -> (r: Result<TokenLottery, ErrorCode>)
    ensures
        r is Err <==> start_time >= end_time || ticket_price == 0,
        r is Err ==> r == Err::<TokenLottery, ErrorCode>(ErrorCode::InvalidSchedule),
        r matches Ok(l) ==> l == configured(start_time, end_time, ticket_price, authority, bump),
{
    if start_time >= end_time || ticket_price == 0 {
        return Err(ErrorCode::InvalidSchedule);
    }
    Ok(TokenLottery {
        bump,
        winner: 0,
        winner_chosen: false,
        start_time,
        end_time,
        lottery_pot_amount: 0,
        total_tickets: 0,
        ticket_price,
        authority,
        randomness_account: None,
    })
}

/// Sells the next ticket at slot `now`: the ticket's price goes into the pot
/// and the ticket count grows by one. Returns the number of the ticket sold,
/// which the token registry then issues under `ticket_name_bytes` of it.
pub fn buy_ticket(lottery: &mut TokenLottery, now: u64) -> (r: Result<u64, ErrorCode>)
    ensures
        r is Ok <==> old(lottery).sales_open(now) && old(lottery).can_sell(),
        !old(lottery).sales_open(now) ==> r == Err::<u64, ErrorCode>(ErrorCode::LotteryNotOpen),
        old(lottery).sales_open(now) && !old(lottery).can_sell() ==> r == Err::<u64, ErrorCode>(ErrorCode::SaleOverflow),
        r is Ok ==> r == Ok::<u64, ErrorCode>(old(lottery).total_tickets) && *final(lottery) == old(lottery).sold_one(),
        r is Ok ==> final(lottery).total_tickets == old(lottery).total_tickets + 1
            && final(lottery).lottery_pot_amount == old(lottery).lottery_pot_amount + old(lottery).ticket_price
            && final(lottery).ticket_price == old(lottery).ticket_price,
        r is Err ==> *final(lottery) == *old(lottery),
        *final(lottery) == old(lottery).after_call(now),
        old(lottery).books_balanced() ==> final(lottery).books_balanced(),
{
    if now < lottery.start_time || now > lottery.end_time {
        return Err(ErrorCode::LotteryNotOpen);
    }
    if lottery.total_tickets == u64::MAX || lottery.ticket_price > u64::MAX - lottery.lottery_pot_amount {
        return Err(ErrorCode::SaleOverflow);
    }
    proof {
        lemma_sale_keeps_books(*lottery);
    }
    let number = lottery.total_tickets;
    lottery.lottery_pot_amount = lottery.lottery_pot_amount + lottery.ticket_price;
    lottery.total_tickets = lottery.total_tickets + 1;
    Ok(number)
}

/// Commits the lottery to the oracle record at `oracle`, already read as
/// `record`; only the authority may, and only to a record seeded by the slot
/// just before `now`, whose value nobody can know yet.
pub fn commit_randomness_with(
    lottery: &mut TokenLottery,
    caller: &Address,
    now: u64,
    oracle: &Address,
    record: Option<OracleRecord>,
) -> (r: Result<(), ErrorCode>)
    ensures
        r == commit_result(*old(lottery), *caller, now, record),
        r is Ok ==> *final(lottery) == old(lottery).committed_to(*oracle),
        r is Err ==> *final(lottery) == *old(lottery),
{
    if !caller.same_as(&lottery.authority) {
        return Err(ErrorCode::NotAuthorized);
    }
    match record {
        None => Err(ErrorCode::RandomnessAccountUnreadable),
        Some(rec) => {
            if now == 0 || rec.seed_slot != now - 1 {
                return Err(ErrorCode::RandomnessAlreadyRevealed);
            }
            if lottery.randomness_account.is_some() {
                return Err(ErrorCode::RandomnessAlreadyCommitted);
            }
            lottery.randomness_account = Some(*oracle);
            Ok(())
        },
    }
}

/// Commits the lottery to the oracle record at `oracle`, whose account data
/// is `data`; see `commit_randomness_with` for the rules.
pub fn commit_randomness(
    lottery: &mut TokenLottery,
    caller: &Address,
    now: u64,
    oracle: &Address,
    data: &[u8],
) -> (r: Result<(), ErrorCode>)
    ensures
        malformed(data@) ==> r == commit_result(*old(lottery), *caller, now, None),
        !malformed(data@) ==> exists|rec: OracleRecord|
            #[trigger] record_of(data@, rec) && r == commit_result(*old(lottery), *caller, now, Some(rec)),
        caller@ != old(lottery).authority@ ==> r == Err::<(), ErrorCode>(ErrorCode::NotAuthorized),
        caller@ == old(lottery).authority@ && malformed(data@)
            ==> r == Err::<(), ErrorCode>(ErrorCode::RandomnessAccountUnreadable),
        caller@ == old(lottery).authority@ && !malformed(data@) && !fresh_record(data@, now)
            ==> r == Err::<(), ErrorCode>(ErrorCode::RandomnessAlreadyRevealed),
        caller@ == old(lottery).authority@ && !malformed(data@) && fresh_record(data@, now)
            && old(lottery).randomness_account is Some
            ==> r == Err::<(), ErrorCode>(ErrorCode::RandomnessAlreadyCommitted),
        r is Ok ==> *final(lottery) == old(lottery).committed_to(*oracle),
        r is Err ==> *final(lottery) == *old(lottery),
{
    let record = parse_randomness(data);
    commit_randomness_with(lottery, caller, now, oracle, record)
}

/// Chooses the winning ticket from the committed oracle record at `oracle`,
/// already read as `record`: its revealed value's first byte modulo the
/// number of tickets sold. Returns the winning ticket's number.
pub fn choose_winner_with(
    lottery: &mut TokenLottery,
    caller: &Address,
    now: u64,
    oracle: &Address,
    record: Option<OracleRecord>,
) -> (r: Result<u64, ErrorCode>)
    ensures
        r == choose_result(*old(lottery), *caller, now, *oracle, record),
        r matches Ok(w) ==> *final(lottery) == old(lottery).with_winner(w) && w < old(lottery).total_tickets,
        r is Err ==> *final(lottery) == *old(lottery),
{
    if !caller.same_as(&lottery.authority) {
        return Err(ErrorCode::NotAuthorized);
    }
    let committed = match lottery.randomness_account {
        Some(k) => k.same_as(oracle),
        None => false,
    };
    if !committed {
        return Err(ErrorCode::IncorrectRandomnessAccount);
    }
    if now < lottery.end_time {
        return Err(ErrorCode::LotteryNotCompleted);
    }
    if lottery.winner_chosen {
        return Err(ErrorCode::WinnerChosen);
    }
    let rec = match record {
        None => {
            return Err(ErrorCode::RandomnessAccountUnreadable);
        },
        Some(rec) => rec,
    };
    let value = match rec.revealed_value(now) {
        None => {
            return Err(ErrorCode::RandomnessNotResolved);
        },
        Some(v) => v,
    };
    if lottery.total_tickets == 0 {
        return Err(ErrorCode::NoTicketsSold);
    }
    let winner = value[0] as u64 % lottery.total_tickets;
    lottery.winner = winner;
    lottery.winner_chosen = true;
    Ok(winner)
}

/// Chooses the winning ticket from the committed oracle record at `oracle`,
/// whose account data is `data`; see `choose_winner_with` for the rules.
pub fn choose_winner(
    lottery: &mut TokenLottery,
    caller: &Address,
    now: u64,
    oracle: &Address,
    data: &[u8],
) -> (r: Result<u64, ErrorCode>)
    ensures
        malformed(data@) ==> r == choose_result(*old(lottery), *caller, now, *oracle, None),
        !malformed(data@) ==> exists|rec: OracleRecord|
            #[trigger] record_of(data@, rec) && r == choose_result(*old(lottery), *caller, now, *oracle, Some(rec)),
        old(lottery).winner_chosen ==> r is Err,
        r matches Ok(w) ==> *final(lottery) == old(lottery).with_winner(w) && w < old(lottery).total_tickets,
        r is Err ==> *final(lottery) == *old(lottery),
{
    let record = parse_randomness(data);
    choose_winner_with(lottery, caller, now, oracle, record)
}

/// Pays the pot out to the holder of `ticket`, which must be the winning
/// ticket of the collection `collection_mint`, and empties the pot. Returns
/// the amount paid out.
pub fn claim_prize(lottery: &mut TokenLottery, ticket: &TicketCredential, collection_mint: &Address) -> (r: Result<u64, ErrorCode>)
    ensures
        r == claim_result(*old(lottery), *ticket, *collection_mint),
        r is Ok ==> *final(lottery) == old(lottery).paid_out(),
        r is Err ==> *final(lottery) == *old(lottery),
{
    if !lottery.winner_chosen {
        return Err(ErrorCode::WinnerNotChosen);
    }
    let mark = match ticket.collection {
        Some(c) => c,
        None => {
            return Err(ErrorCode::NotVerified);
        },
    };
    if !mark.verified {
        return Err(ErrorCode::NotVerified);
    }
    if !mark.key.same_as(collection_mint) {
        return Err(ErrorCode::IncorrectTicket);
    }
    if !names_ticket(&ticket.name, lottery.winner) {
        return Err(ErrorCode::IncorrectTicket);
    }
    if ticket.amount == 0 {
        return Err(ErrorCode::NoTicket);
    }
    let payout = lottery.lottery_pot_amount;
    lottery.lottery_pot_amount = 0;
    Ok(payout)
}

/// A sale that fits in 64 bits keeps the pot equal to the price of the
/// tickets sold.
pub proof fn lemma_sale_keeps_books(l: TokenLottery)
    requires
        l.can_sell(),
    ensures
        l.books_balanced() ==> l.sold_one().books_balanced(),
{
    if l.books_balanced() {
        assert((l.total_tickets + 1) * l.ticket_price == l.total_tickets * l.ticket_price + l.ticket_price)
            by (nonlinear_arith);
    }
}

/// A freshly configured lottery's books balance; since every call of
/// `buy_ticket` keeps them balanced and counts exactly the successful sales,
/// after any sequence of calls the pot is the ticket count times the price.
pub proof fn lemma_configured_books_balanced(start_time: u64, end_time: u64, ticket_price: u64, authority: Address, bump: u8)
    ensures
        configured(start_time, end_time, ticket_price, authority, bump).books_balanced(),
{
    assert(0 * ticket_price == 0) by (nonlinear_arith);
}

/// Over any sequence of `buy_ticket` calls on a freshly configured lottery,
/// the ticket count is the number of calls that succeeded and the pot is
/// exactly that number times the ticket price.
pub proof fn lemma_sale_calls_fill_pot(
    start_time: u64,
    end_time: u64,
    ticket_price: u64,
    authority: Address,
    bump: u8,
    nows: Seq<u64>,
)
    ensures
        configured(start_time, end_time, ticket_price, authority, bump).after_calls(nows).total_tickets
            == configured(start_time, end_time, ticket_price, authority, bump).successful_sales(nows),
        configured(start_time, end_time, ticket_price, authority, bump).after_calls(nows).lottery_pot_amount
            == configured(start_time, end_time, ticket_price, authority, bump).successful_sales(nows) * ticket_price,
        configured(start_time, end_time, ticket_price, authority, bump).after_calls(nows).ticket_price == ticket_price,
    decreases nows.len(),
{
    let l = configured(start_time, end_time, ticket_price, authority, bump);
    if nows.len() == 0 {
        lemma_configured_books_balanced(start_time, end_time, ticket_price, authority, bump);
    } else {
        let prev_nows = nows.drop_last();
        lemma_sale_calls_fill_pot(start_time, end_time, ticket_price, authority, bump, prev_nows);
        let prev = l.after_calls(prev_nows);
        assert(prev.books_balanced());
        if prev.sales_open(nows.last()) && prev.can_sell() {
            lemma_sale_keeps_books(prev);
        }
        assert(l.after_calls(nows) == prev.after_call(nows.last()));
    }
}

/// Ticket sales keep the books exact: after any `n` successful sales from a
/// freshly configured lottery, `n` tickets are counted and the pot holds
/// exactly `n` times the ticket price. (`buy_ticket` moves a lottery from
/// `l` to `l.sold_one()`, so `n` sales reach `after_sales(n)`.)
pub proof fn lemma_sales_fill_pot(start_time: u64, end_time: u64, ticket_price: u64, authority: Address, bump: u8, n: nat)
    requires
        n * ticket_price <= u64::MAX,
        n <= u64::MAX,
    ensures
        configured(start_time, end_time, ticket_price, authority, bump).after_sales(n).total_tickets == n,
        configured(start_time, end_time, ticket_price, authority, bump).after_sales(n).lottery_pot_amount == n * ticket_price,
        configured(start_time, end_time, ticket_price, authority, bump).after_sales(n).ticket_price == ticket_price,
    decreases n,
{
    let l = configured(start_time, end_time, ticket_price, authority, bump);
    if n > 0 {
        let m = (n - 1) as nat;
        assert(m * ticket_price <= n * ticket_price) by (nonlinear_arith)
            requires m == n - 1;
        lemma_sales_fill_pot(start_time, end_time, ticket_price, authority, bump, m);
        assert(n * ticket_price == m * ticket_price + ticket_price) by (nonlinear_arith)
            requires m == n - 1;
        let prev = l.after_sales(m);
        assert(l.after_sales(n) == prev.sold_one());
        assert(prev.lottery_pot_amount + prev.ticket_price == n * ticket_price);
        assert(l.after_sales(n).lottery_pot_amount == n * ticket_price);
    } else {
        assert(n * ticket_price == 0) by (nonlinear_arith)
            requires n == 0;
    }
}

/// Once a winner is chosen, choosing again fails with `WinnerChosen`, whatever
/// the later slot and whatever the oracle record then reads; and a failed
/// choice leaves the lottery, its winner included, as it was.
pub proof fn lemma_winner_latch(
    l: TokenLottery,
    caller: Address,
    now: u64,
    oracle: Address,
    record: Option<OracleRecord>,
    later: u64,
    later_record: Option<OracleRecord>,
)
    requires
        choose_result(l, caller, now, oracle, record) is Ok,
        now <= later,
    ensures
        choose_result(l.with_winner(choose_result(l, caller, now, oracle, record)->Ok_0), caller, later, oracle, later_record)
            == Err::<u64, ErrorCode>(ErrorCode::WinnerChosen),
{
}

/// The holder of any ticket of the lottery's collection other than the
/// winning one is refused with `IncorrectTicket`.
pub proof fn lemma_losing_ticket_refused(l: TokenLottery, ticket: TicketCredential, collection_mint: Address, number: nat)
    requires
        l.winner_chosen,
        ticket.collection matches Some(c) && c.verified && c.key@ == collection_mint@,
        strip_nul(ticket.name@) == ticket_name(number),
        number != l.winner,
    ensures
        claim_result(l, ticket, collection_mint) == Err::<u64, ErrorCode>(ErrorCode::IncorrectTicket),
{
    if strip_nul(ticket.name@) == ticket_name(l.winner as nat) {
        lemma_ticket_name_injective(number, l.winner as nat);
    }
}

/// A claim repeated after a successful one, with the same ticket, succeeds
/// again but pays out nothing: the first claim emptied the pot.
pub proof fn lemma_repeat_claim_pays_nothing(l: TokenLottery, ticket: TicketCredential, collection_mint: Address)
    requires
        claim_result(l, ticket, collection_mint) is Ok,
    ensures
        claim_result(l.paid_out(), ticket, collection_mint) == Ok::<u64, ErrorCode>(0),
{
}

} // verus!
