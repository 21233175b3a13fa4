//! The subscription reconciliation engine.
//!
//! A payment is opened as a pending subscription under the reference that the
//! gateway issued. Two channels may later confirm it: the owner asks for a
//! verification, or the gateway posts an event. Both end in the same
//! transition, [`Ledger::activate`], which moves pending rows to active and
//! leaves active rows alone, so that confirmations may repeat or race.

use vstd::prelude::*;
use vstd::string::StringExecFns;
use crate::auth::AuthUser;
use crate::entitlement::{check_quota, quota_verdict};
use crate::error::{reported, reported_view, AppError, AppErrorView};
use crate::gateway::{
    accept_initialize, accept_verify, confirmed_reference, confirms, initialize_verdict,
    verify_verdict, GatewayOutcome, InitializePaymentResponse, PaystackInitializeResponse,
    PaystackVerifyResponse, PaystackWebhookEvent,
};
use crate::models::text_of;
use crate::models::{Plan, Subscription, SubscriptionStatus, SubscriptionView, User, UserView};
use crate::text::same_text;

verus! {

/// Seconds that an activation buys: one year of 365 days.
///
/// The year is a fixed number of seconds, so that the end of a subscription
/// depends on the instant of its confirmation alone and on no calendar or
/// time zone. A subscription whose year holds a 29 February therefore ends a
/// day before the same date of the next year.
pub const SUBSCRIPTION_PERIOD_SECONDS: i64 = 31_536_000;

/// Whether a subscription row is the one that the gateway knows as `reference`.
pub open spec fn has_reference(row: SubscriptionView, reference: Seq<char>) -> bool {
    row.paystack_reference == Some(reference)
}

/// The row after a confirmation at `now`: a pending row becomes active and
/// ends one period later; an active row is not touched.
pub open spec fn activated(row: SubscriptionView, now: i64) -> SubscriptionView {
    if row.status == SubscriptionStatus::Pending {
        SubscriptionView {
            status: SubscriptionStatus::Active,
            end_date: Some((now + SUBSCRIPTION_PERIOD_SECONDS) as i64),
            updated_at: now,
            ..row
        }
    } else {
        row
    }
}

/// The user after a confirmed payment: the plan is unlimited.
pub open spec fn upgraded(user: UserView) -> UserView {
    UserView { subscription_plan: Plan::Unlimited, ..user }
}

impl Subscription {
    /// Confirms the row at `now`: a pending row becomes active and ends one
    /// period later; an active row is not touched.
    pub fn confirm(&mut self, now: i64)
        requires
            now + SUBSCRIPTION_PERIOD_SECONDS <= i64::MAX,
        ensures
            final(self)@ == activated(old(self)@, now),
    {
        match self.status {
            SubscriptionStatus::Pending => {
                self.status = SubscriptionStatus::Active;
                self.end_date = Some(now + SUBSCRIPTION_PERIOD_SECONDS);
                self.updated_at = now;
            },
            SubscriptionStatus::Active => {},
        }
    }

    /// Whether the gateway knows this row as `reference`.
    pub fn is_for(&self, reference: &str) -> (same: bool)
        ensures
            same == has_reference(self@, reference@),
    {
        match &self.paystack_reference {
            Some(own) => same_text(own.as_str(), reference),
            None => false,
        }
    }
}

/// Mathematical value of a [`Ledger`]: its users and its subscriptions, each
/// in the order in which they were recorded.
#[verifier::ext_equal]
pub struct LedgerView {
    pub users: Seq<UserView>,
    pub subscriptions: Seq<SubscriptionView>,
}

impl LedgerView {
    /// Whether a user with this identifier is recorded.
    pub open spec fn has_user(self, id: u128) -> bool {
        exists|i: int| 0 <= i < self.users.len() && (#[trigger] self.users[i]).id == id
    }

    /// The user with this identifier. Meaningful where [`Self::has_user`] holds.
    pub open spec fn user(self, id: u128) -> UserView {
        self.users[choose|i: int| 0 <= i < self.users.len() && (#[trigger] self.users[i]).id == id]
    }

    /// Whether a user with this address is recorded.
    pub open spec fn has_email(self, email: Seq<char>) -> bool {
        exists|i: int| 0 <= i < self.users.len() && (#[trigger] self.users[i]).email == email
    }

    /// The user with this address. Meaningful where [`Self::has_email`] holds.
    pub open spec fn user_with_email(self, email: Seq<char>) -> UserView {
        self.users[choose|i: int|
            0 <= i < self.users.len() && (#[trigger] self.users[i]).email == email]
    }

    /// Whether a subscription is recorded under this reference.
    pub open spec fn holds(self, reference: Seq<char>) -> bool {
        exists|i: int|
            0 <= i < self.subscriptions.len() && has_reference(
                #[trigger] self.subscriptions[i],
                reference,
            )
    }

    /// The subscription recorded under this reference. Meaningful where
    /// [`Self::holds`] holds.
    pub open spec fn subscription(self, reference: Seq<char>) -> SubscriptionView {
        self.subscriptions[choose|i: int|
            0 <= i < self.subscriptions.len() && has_reference(
                #[trigger] self.subscriptions[i],
                reference,
            )]
    }

    /// Whether the user owns the subscription recorded under this reference.
    pub open spec fn owns(self, user_id: u128, reference: Seq<char>) -> bool {
        exists|i: int|
            0 <= i < self.subscriptions.len() && has_reference(
                #[trigger] self.subscriptions[i],
                reference,
            ) && self.subscriptions[i].user_id == user_id
    }

    /// The invariant of a ledger: users are told apart by identifier and by
    /// address, subscriptions by reference; every subscription belongs to a
    /// recorded user; a pending subscription has no end and an active one has
    /// one; and the owner of an active subscription is on the unlimited plan.
    pub open spec fn wf(self) -> bool {
        let users = self.users;
        let rows = self.subscriptions;
        &&& forall|i: int, j: int|
            0 <= i < j < users.len() ==> (#[trigger] users[i]).id != (#[trigger] users[j]).id
        &&& forall|i: int, j: int|
            0 <= i < j < users.len() ==> (#[trigger] users[i]).email != (#[trigger] users[j]).email
        &&& forall|i: int, j: int|
            0 <= i < j < rows.len() && (#[trigger] rows[i]).paystack_reference.is_some()
                ==> rows[i].paystack_reference != (#[trigger] rows[j]).paystack_reference
        &&& forall|i: int| 0 <= i < rows.len() ==> self.has_user((#[trigger] rows[i]).user_id)
        &&& forall|i: int|
            0 <= i < rows.len() ==> ((#[trigger] rows[i]).status == SubscriptionStatus::Active
                <==> rows[i].end_date.is_some())
        &&& forall|i: int, k: int|
            0 <= i < rows.len() && 0 <= k < users.len() && (#[trigger] rows[i]).status
                == SubscriptionStatus::Active && rows[i].user_id == (#[trigger] users[k]).id
                ==> users[k].subscription_plan == Plan::Unlimited
    }

    /// The ledger after the confirmation of `reference` at `now`: every row
    /// under that reference is confirmed, and its owner is upgraded. Without
    /// such a row nothing changes.
    pub open spec fn activate(self, reference: Seq<char>, now: i64) -> LedgerView {
        LedgerView {
            users: Seq::new(
                self.users.len(),
                |k: int|
                    if self.owns(self.users[k].id, reference) {
                        upgraded(self.users[k])
                    } else {
                        self.users[k]
                    },
            ),
            subscriptions: Seq::new(
                self.subscriptions.len(),
                |i: int|
                    if has_reference(self.subscriptions[i], reference) {
                        activated(self.subscriptions[i], now)
                    } else {
                        self.subscriptions[i]
                    },
            ),
        }
    }

    /// What a confirmation of `reference` at `now` reports: the confirmed row,
    /// or that no row is recorded under the reference.
    pub open spec fn activation_report(self, reference: Seq<char>, now: i64) -> Result<
        SubscriptionView,
        AppErrorView,
    > {
        if self.holds(reference) {
            Ok(activated(self.subscription(reference), now))
        } else {
            Err(AppErrorView::NotFound("Subscription not found"@))
        }
    }
}

/// The user that a registration records: on the free plan, created at `now`.
pub open spec fn enrolled(
    id: u128,
    email: Seq<char>,
    password_hash: Seq<char>,
    full_name: Option<Seq<char>>,
    now: i64,
) -> UserView {
    UserView {
        id,
        email,
        password_hash,
        full_name,
        subscription_plan: Plan::Free,
        created_at: now,
        updated_at: now,
    }
}

/// The row that an opened payment records: pending, for the unlimited plan,
/// started at `now` and without an end.
pub open spec fn opened(id: u128, user_id: u128, reference: Seq<char>, now: i64) -> SubscriptionView {
    SubscriptionView {
        id,
        user_id,
        plan_type: Plan::Unlimited,
        paystack_reference: Some(reference),
        status: SubscriptionStatus::Pending,
        start_date: now,
        end_date: None,
        created_at: now,
        updated_at: now,
    }
}

impl LedgerView {
    /// Why a user cannot be recorded, if anything stands against it: the
    /// address is taken, or the identifier is.
    pub open spec fn enrol_objection(self, id: u128, email: Seq<char>) -> Option<AppErrorView> {
        if self.has_email(email) {
            Some(AppErrorView::ValidationError("Email already exists"@))
        } else if self.has_user(id) {
            Some(AppErrorView::DatabaseError("duplicate user id"@))
        } else {
            None
        }
    }

    /// The ledger with one more user.
    pub open spec fn enrol(self, user: UserView) -> LedgerView {
        LedgerView { users: self.users.push(user), ..self }
    }

    /// Why a payment cannot be recorded for the user under the reference, if
    /// anything stands against it: the user is not recorded, or the reference
    /// is in use.
    pub open spec fn open_objection(self, user_id: u128, reference: Seq<char>) -> Option<
        AppErrorView,
    > {
        if !self.has_user(user_id) {
            Some(AppErrorView::DatabaseError("no such user"@))
        } else if self.holds(reference) {
            Some(AppErrorView::DatabaseError("duplicate payment reference"@))
        } else {
            None
        }
    }

    /// The ledger with one more subscription row.
    pub open spec fn open(self, row: SubscriptionView) -> LedgerView {
        LedgerView { subscriptions: self.subscriptions.push(row), ..self }
    }

    /// What the owner's request to confirm `reference` comes to once the
    /// gateway has reported success: the ledger afterwards and the report.
    /// Only the owner of the row may have it confirmed; for anybody else, and
    /// for a reference that is not recorded, the ledger stays as it is.
    pub open spec fn confirm_for(self, caller: u128, reference: Seq<char>, now: i64) -> (
        LedgerView,
        Result<SubscriptionView, AppErrorView>,
    ) {
        if !self.holds(reference) {
            (self, Err(AppErrorView::NotFound("Subscription not found"@)))
        } else if self.subscription(reference).user_id != caller {
            (self, Err(AppErrorView::AuthorizationError))
        } else {
            (self.activate(reference, now), Ok(activated(self.subscription(reference), now)))
        }
    }

    /// What a verification request comes to, given how the exchange with the
    /// gateway ended. Unless the gateway reports success nothing changes.
    pub open spec fn verify(
        self,
        caller: u128,
        reference: Seq<char>,
        outcome: GatewayOutcome<PaystackVerifyResponse>,
        now: i64,
    ) -> (LedgerView, Result<SubscriptionView, AppErrorView>) {
        match verify_verdict(outcome) {
            Ok(_) => self.confirm_for(caller, reference, now),
            Err(error) => (self, Err(error)),
        }
    }

    /// The ledger after an event of the gateway: a successful charge confirms
    /// its reference; every other event changes nothing.
    pub open spec fn webhook(self, event: PaystackWebhookEvent, now: i64) -> LedgerView {
        match confirmed_reference(event) {
            Some(reference) => self.activate(reference, now),
            None => self,
        }
    }

    /// What the opening of a payment comes to, given how the exchange with
    /// the gateway ended: the ledger afterwards, and what the user is told or
    /// why it failed. A pending row is recorded only where the gateway
    /// accepted the request and nothing stands against the row.
    pub open spec fn initialize(
        self,
        caller: u128,
        outcome: GatewayOutcome<PaystackInitializeResponse>,
        id: u128,
        now: i64,
    ) -> (LedgerView, Result<(Seq<char>, Seq<char>), AppErrorView>) {
        if !self.has_user(caller) {
            (self, Err(AppErrorView::DatabaseError("no such user"@)))
        } else {
            match initialize_verdict(outcome) {
                Err(error) => (self, Err(error)),
                Ok(data) => match self.open_objection(caller, data.reference@) {
                    Some(error) => (self, Err(error)),
                    None => (
                        self.open(opened(id, caller, data.reference@, now)),
                        Ok((data.authorization_url@, data.reference@)),
                    ),
                },
            }
        }
    }

    /// What the quota check answers a user who owns `form_count` forms.
    pub open spec fn quota(self, user_id: u128, form_count: i64) -> Result<(), AppErrorView> {
        if self.has_user(user_id) {
            quota_verdict(self.user(user_id).subscription_plan, form_count)
        } else {
            Err(AppErrorView::DatabaseError("no such user"@))
        }
    }
}

/// Mathematical value of what a user is told who opened a payment.
pub open spec fn told(result: Result<InitializePaymentResponse, AppError>) -> Result<
    (Seq<char>, Seq<char>),
    AppErrorView,
> {
    match result {
        Ok(answer) => Ok((answer.authorization_url@, answer.reference@)),
        Err(error) => Err(error@),
    }
}

/// The users and subscriptions that the engine reconciles. It stands for the
/// two tables of the datastore; each operation on it is one atomic step.
pub struct Ledger {
    users: Vec<User>,
    subscriptions: Vec<Subscription>,
}

impl View for Ledger {
    type V = LedgerView;

    closed spec fn view(&self) -> LedgerView {
        ledger_of(self.users@, self.subscriptions@)
    }
}

/// The ledger that holds exactly these rows, in this order.
pub open spec fn ledger_of(users: Seq<User>, subscriptions: Seq<Subscription>) -> LedgerView {
    LedgerView {
        users: Seq::new(users.len(), |k: int| users[k]@),
        subscriptions: Seq::new(subscriptions.len(), |i: int| subscriptions[i]@),
    }
}

/// Whether the users are told apart by identifier and by address.
fn users_apart(users: &Vec<User>) -> (apart: bool)
    ensures
        apart == ({
            let rows = ledger_of(users@, Seq::empty()).users;
            &&& forall|i: int, j: int|
                0 <= i < j < rows.len() ==> (#[trigger] rows[i]).id != (#[trigger] rows[j]).id
            &&& forall|i: int, j: int|
                0 <= i < j < rows.len() ==> (#[trigger] rows[i]).email != (
                #[trigger] rows[j]).email
        }),
{
    let ghost rows = ledger_of(users@, Seq::empty()).users;
    let mut j: usize = 0;
    while j < users.len()
        invariant
            j <= users@.len(),
            rows == ledger_of(users@, Seq::empty()).users,
            forall|a: int, b: int|
                0 <= a < b < j ==> (#[trigger] rows[a]).id != (#[trigger] rows[b]).id,
            forall|a: int, b: int|
                0 <= a < b < j ==> (#[trigger] rows[a]).email != (#[trigger] rows[b]).email,
        decreases users@.len() - j,
    {
        let mut i: usize = 0;
        while i < j
            invariant
                i <= j < users@.len(),
                rows == ledger_of(users@, Seq::empty()).users,
                forall|a: int| 0 <= a < i ==> (#[trigger] rows[a]).id != rows[j as int].id,
                forall|a: int| 0 <= a < i ==> (#[trigger] rows[a]).email != rows[j as int].email,
            decreases j - i,
        {
            if users[i].id == users[j].id {
                assert(rows[i as int].id == rows[j as int].id);
                return false;
            }
            if same_text(users[i].email.as_str(), users[j].email.as_str()) {
                assert(rows[i as int].email == rows[j as int].email);
                return false;
            }
            i += 1;
        }
        j += 1;
    }
    true
}

/// Whether the subscriptions that have a reference are told apart by it.
fn references_apart(subscriptions: &Vec<Subscription>) -> (apart: bool)
    ensures
        apart == ({
            let rows = ledger_of(Seq::empty(), subscriptions@).subscriptions;
            forall|i: int, j: int|
                0 <= i < j < rows.len() && (#[trigger] rows[i]).paystack_reference.is_some()
                    ==> rows[i].paystack_reference != (#[trigger] rows[j]).paystack_reference
        }),
{
    let ghost rows = ledger_of(Seq::empty(), subscriptions@).subscriptions;
    let mut j: usize = 0;
    while j < subscriptions.len()
        invariant
            j <= subscriptions@.len(),
            rows == ledger_of(Seq::empty(), subscriptions@).subscriptions,
            forall|a: int, b: int|
                0 <= a < b < j && (#[trigger] rows[a]).paystack_reference.is_some()
                    ==> rows[a].paystack_reference != (#[trigger] rows[b]).paystack_reference,
        decreases subscriptions@.len() - j,
    {
        let mut i: usize = 0;
        while i < j
            invariant
                i <= j < subscriptions@.len(),
                rows == ledger_of(Seq::empty(), subscriptions@).subscriptions,
                forall|a: int|
                    0 <= a < i && (#[trigger] rows[a]).paystack_reference.is_some()
                        ==> rows[a].paystack_reference != rows[j as int].paystack_reference,
            decreases j - i,
        {
            let same = match (&subscriptions[i].paystack_reference, &subscriptions[j].paystack_reference) {
                (Some(left), Some(right)) => same_text(left.as_str(), right.as_str()),
                _ => false,
            };
            if same {
                assert(rows[i as int].paystack_reference.is_some());
                assert(rows[i as int].paystack_reference == rows[j as int].paystack_reference);
                return false;
            }
            i += 1;
        }
        j += 1;
    }
    true
}

/// Whether a subscription fits the users: its owner is recorded, it has an
/// end exactly when it is active, and the owner of an active row is on the
/// unlimited plan.
pub open spec fn row_fits(users: Seq<UserView>, row: SubscriptionView) -> bool {
    &&& exists|k: int| 0 <= k < users.len() && (#[trigger] users[k]).id == row.user_id
    &&& row.status == SubscriptionStatus::Active <==> row.end_date.is_some()
    &&& forall|k: int|
        0 <= k < users.len() && row.status == SubscriptionStatus::Active && row.user_id == (
        #[trigger] users[k]).id ==> users[k].subscription_plan == Plan::Unlimited
}

/// Whether one subscription fits the users.
fn fits(users: &Vec<User>, row: &Subscription) -> (ok: bool)
    ensures
        ok == row_fits(ledger_of(users@, Seq::empty()).users, row@),
{
    let ghost rows = ledger_of(users@, Seq::empty()).users;
    let active = match row.status {
        SubscriptionStatus::Active => true,
        SubscriptionStatus::Pending => false,
    };
    if active != row.end_date.is_some() {
        return false;
    }
    let mut owned = false;
    let mut k: usize = 0;
    while k < users.len()
        invariant
            k <= users@.len(),
            rows == ledger_of(users@, Seq::empty()).users,
            active == (row@.status == SubscriptionStatus::Active),
            owned == exists|a: int| 0 <= a < k && (#[trigger] rows[a]).id == row@.user_id,
            forall|a: int|
                0 <= a < k && active && row@.user_id == (#[trigger] rows[a]).id
                    ==> rows[a].subscription_plan == Plan::Unlimited,
        decreases users@.len() - k,
    {
        if users[k].id == row.user_id {
            assert(rows[k as int].id == row@.user_id);
            owned = true;
            let unlimited = match users[k].subscription_plan {
                Plan::Unlimited => true,
                Plan::Free => false,
            };
            if active && !unlimited {
                return false;
            }
        }
        k += 1;
    }
    owned
}


impl Ledger {
    /// The invariant of the ledger; see [`LedgerView::wf`].
    pub open spec fn wf(&self) -> bool {
        self@.wf()
    }

    /// A ledger without users or subscriptions.
    pub fn new() -> (ledger: Ledger)
        ensures
            ledger.wf(),
            ledger@.users.len() == 0,
            ledger@.subscriptions.len() == 0,
    {
        Ledger { users: Vec::new(), subscriptions: Vec::new() }
    }

    /// The ledger that holds exactly these rows, if they make a well-formed
    /// ledger; see [`LedgerView::wf`].
    pub fn from_rows(users: Vec<User>, subscriptions: Vec<Subscription>) -> (ledger: Option<Ledger>)
        ensures
            match ledger {
                Some(built) => built.wf() && built@ == ledger_of(users@, subscriptions@),
                None => !ledger_of(users@, subscriptions@).wf(),
            },
    {
        let ghost view = ledger_of(users@, subscriptions@);
        assert(view.users =~= ledger_of(users@, Seq::empty()).users);
        assert(view.subscriptions =~= ledger_of(Seq::empty(), subscriptions@).subscriptions);
        if !users_apart(&users) || !references_apart(&subscriptions) {
            return None;
        }
        let mut i: usize = 0;
        while i < subscriptions.len()
            invariant
                i <= subscriptions@.len(),
                view == ledger_of(users@, subscriptions@),
                view.users == ledger_of(users@, Seq::empty()).users,
                forall|a: int| 0 <= a < i ==> row_fits(view.users, #[trigger] view.subscriptions[a]),
            decreases subscriptions@.len() - i,
        {
            if !fits(&users, &subscriptions[i]) {
                proof {
                    let row = view.subscriptions[i as int];
                    assert(!row_fits(view.users, row));
                    if view.wf() {
                        assert(view.has_user(row.user_id));
                        assert(false);
                    }
                }
                return None;
            }
            i += 1;
        }
        proof {
            assert forall|a: int| 0 <= a < view.subscriptions.len() implies view.has_user(
                (#[trigger] view.subscriptions[a]).user_id,
            ) by {
                assert(row_fits(view.users, view.subscriptions[a]));
            }
            assert forall|a: int, k: int|
                0 <= a < view.subscriptions.len() && 0 <= k < view.users.len() && (
                #[trigger] view.subscriptions[a]).status == SubscriptionStatus::Active
                    && view.subscriptions[a].user_id == (
                #[trigger] view.users[k]).id implies view.users[k].subscription_plan
                == Plan::Unlimited by {
                assert(row_fits(view.users, view.subscriptions[a]));
            }
            assert forall|a: int| 0 <= a < view.subscriptions.len() implies ((
            #[trigger] view.subscriptions[a]).status == SubscriptionStatus::Active
                <==> view.subscriptions[a].end_date.is_some()) by {
                assert(row_fits(view.users, view.subscriptions[a]));
            }
        }
        Some(Ledger { users, subscriptions })
    }

    /// The rows of the ledger, in the order in which they were recorded.
    pub fn into_rows(self) -> (rows: (Vec<User>, Vec<Subscription>))
        ensures
            ledger_of(rows.0@, rows.1@) == self@,
    {
        (self.users, self.subscriptions)
    }

    /// Where the row under `reference` stands, if there is one.
    fn row_of(&self, reference: &str) -> (at: Option<usize>)
        ensures
            match at {
                Some(i) => i < self@.subscriptions.len() && has_reference(
                    self@.subscriptions[i as int],
                    reference@,
                ),
                None => !self@.holds(reference@),
            },
    {
        let mut i: usize = 0;
        while i < self.subscriptions.len()
            invariant
                i <= self.subscriptions@.len(),
                self@.subscriptions.len() == self.subscriptions@.len(),
                forall|j: int| 0 <= j < i ==> !has_reference(#[trigger] self@.subscriptions[j], reference@),
            decreases self.subscriptions@.len() - i,
        {
            if self.subscriptions[i].is_for(reference) {
                return Some(i);
            }
            i += 1;
        }
        None
    }

    /// Where the user with this identifier stands, if there is one.
    fn user_at(&self, id: u128) -> (at: Option<usize>)
        ensures
            match at {
                Some(k) => k < self@.users.len() && self@.users[k as int].id == id,
                None => !self@.has_user(id),
            },
    {
        let mut k: usize = 0;
        while k < self.users.len()
            invariant
                k <= self.users@.len(),
                self@.users.len() == self.users@.len(),
                forall|j: int| 0 <= j < k ==> (#[trigger] self@.users[j]).id != id,
            decreases self.users@.len() - k,
        {
            if self.users[k].id == id {
                return Some(k);
            }
            k += 1;
        }
        None
    }

    /// Confirms the payment known as `reference` at `now`. This is the one
    /// mutation that both confirmation channels end in.
    ///
    /// The row under the reference becomes active and ends one period after
    /// `now`, and its owner moves to the unlimited plan. A row that is active
    /// already is reported as it stands: its end is not moved and nothing is
    /// written. Without a row under the reference nothing is written either,
    /// and the absence is reported.
    pub fn activate(&mut self, reference: &str, now: i64) -> (report: Result<Subscription, AppError>)
        requires
            old(self).wf(),
            now + SUBSCRIPTION_PERIOD_SECONDS <= i64::MAX,
        ensures
            final(self).wf(),
            final(self)@ == old(self)@.activate(reference@, now),
            reported_view(report) == old(self)@.activation_report(reference@, now),
    {
        let ghost before = self@;
        match self.row_of(reference) {
            None => {
                proof {
                    before.lemma_unknown_reference(reference@, now);
                }
                Err(AppError::NotFound(String::from_str("Subscription not found")))
            },
            Some(i) => {
                proof {
                    before.lemma_row_is_the_subscription(i as int, reference@);
                }
                let owner = self.subscriptions[i].user_id;
                let mut row = self.subscriptions[i].clone();
                row.confirm(now);
                let report = row.clone();
                self.subscriptions.set(i, row);
                match self.user_at(owner) {
                    Some(k) => {
                        let mut user = self.users[k].clone();
                        user.subscription_plan = Plan::Unlimited;
                        self.users.set(k, user);
                        proof {
                            before.lemma_row_is_the_user(k as int, owner);
                            before.lemma_activate_keeps_wf(reference@, now);
                            assert(self@ =~= before.activate(reference@, now));
                        }
                    },
                    None => {
                        proof {
                            assert(before.has_user(before.subscriptions[i as int].user_id));
                            assert(false);
                        }
                    },
                }
                Ok(report)
            },
        }
    }

    /// Where the user with this address stands, if there is one.
    fn email_at(&self, email: &str) -> (at: Option<usize>)
        ensures
            match at {
                Some(k) => k < self@.users.len() && self@.users[k as int].email == email@,
                None => !self@.has_email(email@),
            },
    {
        let mut k: usize = 0;
        while k < self.users.len()
            invariant
                k <= self.users@.len(),
                self@.users.len() == self.users@.len(),
                forall|j: int| 0 <= j < k ==> (#[trigger] self@.users[j]).email != email@,
            decreases self.users@.len() - k,
        {
            if same_text(self.users[k].email.as_str(), email) {
                return Some(k);
            }
            k += 1;
        }
        None
    }

    /// The user recorded under this address, if there is one.
    pub fn user_by_email(&self, email: &str) -> (row: Option<User>)
        requires
            self.wf(),
        ensures
            match row {
                Some(found) => self@.has_email(email@) && found@ == self@.user_with_email(email@),
                None => !self@.has_email(email@),
            },
    {
        match self.email_at(email) {
            Some(k) => {
                let found = self.users[k].clone();
                proof {
                    let view = self@;
                    assert forall|j: int|
                        0 <= j < view.users.len() && (#[trigger] view.users[j]).email
                            == email@ implies j == k by {
                        if j < k {
                            assert(view.users[j].email != view.users[k as int].email);
                        } else if k < j {
                            assert(view.users[k as int].email != view.users[j].email);
                        }
                    }
                }
                Some(found)
            },
            None => None,
        }
    }

    /// Records a new user on the free plan. An address that is taken is a
    /// validation failure, an identifier that is taken a datastore failure;
    /// in both cases nothing is recorded.
    pub fn add_user(
        &mut self,
        id: u128,
        email: String,
        password_hash: String,
        full_name: Option<String>,
        now: i64,
    ) -> (recorded: Result<User, AppError>)
        requires
            old(self).wf(),
        ensures
            final(self).wf(),
            match recorded {
                Ok(user) => {
                    &&& old(self)@.enrol_objection(id, email@).is_none()
                    &&& user@ == enrolled(id, email@, password_hash@, text_of(full_name), now)
                    &&& final(self)@ == old(self)@.enrol(user@)
                },
                Err(error) => {
                    &&& old(self)@.enrol_objection(id, email@) == Some(error@)
                    &&& final(self)@ == old(self)@
                },
            },
    {
        if self.email_at(email.as_str()).is_some() {
            return Err(AppError::ValidationError(String::from_str("Email already exists")));
        }
        if self.user_at(id).is_some() {
            return Err(AppError::DatabaseError(String::from_str("duplicate user id")));
        }
        let user = User {
            id,
            email,
            password_hash,
            full_name,
            subscription_plan: Plan::Free,
            created_at: now,
            updated_at: now,
        };
        let recorded = user.clone();
        let ghost before = self@;
        self.users.push(user);
        proof {
            assert(self@ =~= before.enrol(recorded@));
            before.lemma_enrol_keeps_wf(recorded@);
        }
        Ok(recorded)
    }

    /// Records a pending subscription of `user_id` under `reference`. The row
    /// is for the unlimited plan and starts at `now`. An unknown user and a
    /// reference that is in use are datastore failures; nothing is recorded
    /// then.
    pub fn open_subscription(&mut self, id: u128, user_id: u128, reference: String, now: i64) -> (recorded:
        Result<Subscription, AppError>)
        requires
            old(self).wf(),
        ensures
            final(self).wf(),
            match recorded {
                Ok(row) => {
                    &&& old(self)@.open_objection(user_id, reference@).is_none()
                    &&& row@ == opened(id, user_id, reference@, now)
                    &&& final(self)@ == old(self)@.open(row@)
                },
                Err(error) => {
                    &&& old(self)@.open_objection(user_id, reference@) == Some(error@)
                    &&& final(self)@ == old(self)@
                },
            },
    {
        if self.user_at(user_id).is_none() {
            return Err(AppError::DatabaseError(String::from_str("no such user")));
        }
        if self.row_of(reference.as_str()).is_some() {
            return Err(AppError::DatabaseError(String::from_str("duplicate payment reference")));
        }
        let row = Subscription {
            id,
            user_id,
            plan_type: Plan::Unlimited,
            paystack_reference: Some(reference),
            status: SubscriptionStatus::Pending,
            start_date: now,
            end_date: None,
            created_at: now,
            updated_at: now,
        };
        let recorded = row.clone();
        let ghost before = self@;
        self.subscriptions.push(row);
        proof {
            assert(self@ =~= before.open(recorded@));
            before.lemma_open_keeps_wf(recorded@);
        }
        Ok(recorded)
    }

    /// Ends the opening of a payment by `auth_user`, given how the exchange
    /// with the gateway ended. Where the gateway accepted the request, a
    /// pending subscription is recorded under the reference that it issued,
    /// and the user is told where to pay.
    pub fn initialize_payment(
        &mut self,
        auth_user: &AuthUser,
        outcome: GatewayOutcome<PaystackInitializeResponse>,
        id: u128,
        now: i64,
    ) -> (answer: Result<InitializePaymentResponse, AppError>)
        requires
            old(self).wf(),
        ensures
            final(self).wf(),
            (final(self)@, told(answer)) == old(self)@.initialize(auth_user.user_id, outcome, id, now),
    {
        if self.user_at(auth_user.user_id).is_none() {
            return Err(AppError::DatabaseError(String::from_str("no such user")));
        }
        let data = match accept_initialize(outcome) {
            Ok(data) => data,
            Err(error) => { return Err(error); },
        };
        match self.open_subscription(id, auth_user.user_id, data.reference.clone(), now) {
            Ok(_) => Ok(
                InitializePaymentResponse {
                    authorization_url: data.authorization_url,
                    reference: data.reference,
                },
            ),
            Err(error) => Err(error),
        }
    }

    /// The synchronous confirmation channel: `auth_user` asked to have
    /// `reference` verified, and the exchange with the gateway ended in
    /// `outcome`.
    ///
    /// Where the gateway reports success, the row under the reference is
    /// activated for its owner as by [`Self::activate`]. A caller who does not
    /// own the row fails with the authorization failure, an unknown
    /// reference is reported as not found, and anything but success from the
    /// gateway is a payment failure; in all of these nothing is written.
    pub fn verify_payment(
        &mut self,
        auth_user: &AuthUser,
        reference: &str,
        outcome: GatewayOutcome<PaystackVerifyResponse>,
        now: i64,
    ) -> (report: Result<Subscription, AppError>)
        requires
            old(self).wf(),
            now + SUBSCRIPTION_PERIOD_SECONDS <= i64::MAX,
        ensures
            final(self).wf(),
            (final(self)@, reported_view(report)) == old(self)@.verify(
                auth_user.user_id,
                reference@,
                outcome,
                now,
            ),
    {
        match accept_verify(outcome) {
            Ok(_) => {},
            Err(error) => { return Err(error); },
        }
        match self.row_of(reference) {
            None => Err(AppError::NotFound(String::from_str("Subscription not found"))),
            Some(i) => {
                proof {
                    self@.lemma_row_is_the_subscription(i as int, reference@);
                }
                if self.subscriptions[i].user_id != auth_user.user_id {
                    Err(AppError::AuthorizationError)
                } else {
                    self.activate(reference, now)
                }
            },
        }
    }

    /// The asynchronous confirmation channel: the gateway posted `event`.
    ///
    /// A successful charge activates the row under its reference as by
    /// [`Self::activate`]. Every other event, and an event for a reference
    /// that is not recorded, is accepted and changes nothing: the gateway
    /// delivers at least once and must not be made to retry.
    pub fn payment_webhook(&mut self, event: &PaystackWebhookEvent, now: i64) -> (accepted: Result<
        (),
        AppError,
    >)
        requires
            old(self).wf(),
            now + SUBSCRIPTION_PERIOD_SECONDS <= i64::MAX,
        ensures
            final(self).wf(),
            accepted is Ok,
            final(self)@ == old(self)@.webhook(*event, now),
    {
        if confirms(event) {
            let _ = self.activate(event.data.reference.as_str(), now);
        }
        Ok(())
    }

    /// The quota check for `auth_user`, who owns `form_count` forms: the
    /// user's current plan decides. Nothing is changed.
    pub fn check_quota(&self, auth_user: &AuthUser, form_count: i64) -> (verdict: Result<(), AppError>)
        requires
            self.wf(),
        ensures
            reported(verdict) == self@.quota(auth_user.user_id, form_count),
    {
        match self.user_at(auth_user.user_id) {
            Some(k) => {
                proof {
                    self@.lemma_row_is_the_user(k as int, auth_user.user_id);
                }
                check_quota(&self.users[k], form_count)
            },
            None => Err(AppError::DatabaseError(String::from_str("no such user"))),
        }
    }

    /// The subscription recorded under `reference`, if there is one.
    pub fn subscription(&self, reference: &str) -> (row: Option<Subscription>)
        requires
            self.wf(),
        ensures
            match row {
                Some(found) => self@.holds(reference@) && found@ == self@.subscription(reference@),
                None => !self@.holds(reference@),
            },
    {
        match self.row_of(reference) {
            Some(i) => {
                let found = self.subscriptions[i].clone();
                proof {
                    self@.lemma_row_is_the_subscription(i as int, reference@);
                }
                Some(found)
            },
            None => None,
        }
    }

    /// The user recorded under `id`, if there is one.
    pub fn user(&self, id: u128) -> (row: Option<User>)
        requires
            self.wf(),
        ensures
            match row {
                Some(found) => self@.has_user(id) && found@ == self@.user(id),
                None => !self@.has_user(id),
            },
    {
        match self.user_at(id) {
            Some(k) => {
                let found = self.users[k].clone();
                proof {
                    self@.lemma_row_is_the_user(k as int, id);
                }
                Some(found)
            },
            None => None,
        }
    }
}

impl LedgerView {
    /// In a well-formed ledger the row under a reference is determined by it.
    pub proof fn lemma_row_is_the_subscription(self, i: int, reference: Seq<char>)
        requires
            self.wf(),
            0 <= i < self.subscriptions.len(),
            has_reference(self.subscriptions[i], reference),
        ensures
            self.holds(reference),
            self.subscription(reference) == self.subscriptions[i],
            self.owns(self.subscriptions[i].user_id, reference),
            forall|j: int|
                0 <= j < self.subscriptions.len() && has_reference(
                    #[trigger] self.subscriptions[j],
                    reference,
                ) ==> j == i,
            forall|id: u128| self.owns(id, reference) ==> id == self.subscriptions[i].user_id,
    {
        assert forall|j: int|
            0 <= j < self.subscriptions.len() && has_reference(
                #[trigger] self.subscriptions[j],
                reference,
            ) implies j == i by {
            if j < i {
                assert(self.subscriptions[j].paystack_reference
                    != self.subscriptions[i].paystack_reference);
            } else if i < j {
                assert(self.subscriptions[i].paystack_reference
                    != self.subscriptions[j].paystack_reference);
            }
        }
    }

    /// Confirming a reference that the ledger does not hold changes nothing.
    pub proof fn lemma_unknown_reference(self, reference: Seq<char>, now: i64)
        requires
            !self.holds(reference),
        ensures
            self.activate(reference, now) == self,
    {
        assert forall|k: int| 0 <= k < self.users.len() implies !self.owns(
            (#[trigger] self.users[k]).id,
            reference,
        ) by {}
        assert(self.activate(reference, now) =~= self);
    }

    /// Confirming a reference keeps the ledger well-formed.
    pub proof fn lemma_activate_keeps_wf(self, reference: Seq<char>, now: i64)
        requires
            self.wf(),
        ensures
            self.activate(reference, now).wf(),
    {
        let after = self.activate(reference, now);
        assert forall|i: int| 0 <= i < after.subscriptions.len() implies after.has_user(
            (#[trigger] after.subscriptions[i]).user_id,
        ) by {
            assert(self.has_user(self.subscriptions[i].user_id));
            let k = choose|k: int|
                0 <= k < self.users.len() && (#[trigger] self.users[k]).id
                    == self.subscriptions[i].user_id;
            assert(after.users[k].id == after.subscriptions[i].user_id);
        }
        assert forall|i: int, k: int|
            0 <= i < after.subscriptions.len() && 0 <= k < after.users.len() && (
            #[trigger] after.subscriptions[i]).status == SubscriptionStatus::Active
                && after.subscriptions[i].user_id == (
            #[trigger] after.users[k]).id implies after.users[k].subscription_plan
            == Plan::Unlimited by {
            if self.subscriptions[i].status != SubscriptionStatus::Active {
                assert(has_reference(self.subscriptions[i], reference));
                assert(self.owns(self.users[k].id, reference));
            } else {
                assert(self.users[k].subscription_plan == Plan::Unlimited);
            }
        }
    }

    /// Recording a user against whom nothing stands keeps the ledger
    /// well-formed.
    pub proof fn lemma_enrol_keeps_wf(self, user: UserView)
        requires
            self.wf(),
            self.enrol_objection(user.id, user.email).is_none(),
            user.subscription_plan == Plan::Free,
        ensures
            self.enrol(user).wf(),
    {
        let after = self.enrol(user);
        assert forall|i: int| 0 <= i < after.subscriptions.len() implies after.has_user(
            (#[trigger] after.subscriptions[i]).user_id,
        ) by {
            assert(self.has_user(self.subscriptions[i].user_id));
            let k = choose|k: int|
                0 <= k < self.users.len() && (#[trigger] self.users[k]).id
                    == self.subscriptions[i].user_id;
            assert(after.users[k].id == after.subscriptions[i].user_id);
        }
        assert forall|i: int, k: int|
            0 <= i < after.subscriptions.len() && 0 <= k < after.users.len() && (
            #[trigger] after.subscriptions[i]).status == SubscriptionStatus::Active
                && after.subscriptions[i].user_id == (
            #[trigger] after.users[k]).id implies after.users[k].subscription_plan
            == Plan::Unlimited by {
            if k == self.users.len() {
                assert(self.has_user(self.subscriptions[i].user_id));
            } else {
                assert(self.users[k].subscription_plan == Plan::Unlimited);
            }
        }
    }

    /// Recording a pending row against which nothing stands keeps the ledger
    /// well-formed.
    pub proof fn lemma_open_keeps_wf(self, row: SubscriptionView)
        requires
            self.wf(),
            row.paystack_reference.is_some(),
            self.open_objection(row.user_id, row.paystack_reference.unwrap()).is_none(),
            row.status == SubscriptionStatus::Pending,
            row.end_date.is_none(),
        ensures
            self.open(row).wf(),
    {
        let after = self.open(row);
        assert forall|i: int, j: int|
            0 <= i < j < after.subscriptions.len() && (
            #[trigger] after.subscriptions[i]).paystack_reference.is_some()
                implies after.subscriptions[i].paystack_reference != (
        #[trigger] after.subscriptions[j]).paystack_reference by {
            if j == self.subscriptions.len() {
                if self.subscriptions[i].paystack_reference == row.paystack_reference {
                    assert(has_reference(self.subscriptions[i], row.paystack_reference.unwrap()));
                }
            } else {
                assert(self.subscriptions[i].paystack_reference
                    != self.subscriptions[j].paystack_reference);
            }
        }
        assert forall|i: int| 0 <= i < after.subscriptions.len() implies after.has_user(
            (#[trigger] after.subscriptions[i]).user_id,
        ) by {
            if i < self.subscriptions.len() {
                assert(self.has_user(self.subscriptions[i].user_id));
            }
        }
    }

    /// In a well-formed ledger the user under an identifier is determined by it.
    pub proof fn lemma_row_is_the_user(self, k: int, id: u128)
        requires
            self.wf(),
            0 <= k < self.users.len(),
            self.users[k].id == id,
        ensures
            self.has_user(id),
            self.user(id) == self.users[k],
            forall|j: int| 0 <= j < self.users.len() && (#[trigger] self.users[j]).id == id ==> j == k,
    {
        assert forall|j: int| 0 <= j < self.users.len() && (#[trigger] self.users[j]).id == id implies j
            == k by {
            if j < k {
                assert(self.users[j].id != self.users[k].id);
            } else if k < j {
                assert(self.users[k].id != self.users[j].id);
            }
        }
    }
}

} // verus!
