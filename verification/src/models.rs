//! The records of the service, with the mathematical value of each.

use vstd::prelude::*;
use crate::text::same_text;

verus! {

/// What a user is entitled to.
#[derive(Clone, Copy, Debug, PartialEq, Eq, Structural)]
pub enum Plan {
    /// The default plan, with a quota on forms.
    Free,
    /// The paid plan, without quota.
    Unlimited,
}

impl Plan {
    /// The identifier under which the plan is stored and transmitted.
    pub open spec fn name(self) -> Seq<char> {
        match self {
            Plan::Free => "free"@,
            Plan::Unlimited => "unlimited"@,
        }
    }

    /// The plan that an identifier stands for, if any.
    pub open spec fn named(text: Seq<char>) -> Option<Plan> {
        if text == "free"@ {
            Some(Plan::Free)
        } else if text == "unlimited"@ {
            Some(Plan::Unlimited)
        } else {
            None
        }
    }

    /// The identifier under which the plan is stored and transmitted.
    pub fn as_str(&self) -> (text: &'static str)
        ensures
            text@ == self.name(),
    {
        match self {
            Plan::Free => "free",
            Plan::Unlimited => "unlimited",
        }
    }

    /// Reads a plan identifier. Only `free` and `unlimited` are plans.
    pub fn parse(text: &str) -> (plan: Option<Plan>)
        ensures
            plan == Plan::named(text@),
    {
        if same_text(text, "free") {
            Some(Plan::Free)
        } else if same_text(text, "unlimited") {
            Some(Plan::Unlimited)
        } else {
            None
        }
    }

    /// Reading the identifier of a plan gives the plan back.
    pub proof fn name_round_trip(self)
        ensures
            Plan::named(self.name()) == Some(self),
    {
        reveal_strlit("free");
        reveal_strlit("unlimited");
        assert("free"@.len() == 4);
        assert("unlimited"@.len() == 9);
    }
}

/// Where a subscription stands in its life: it is opened as pending and
/// becomes active once the payment is confirmed. Nothing leads back.
#[derive(Clone, Copy, Debug, PartialEq, Eq, Structural)]
pub enum SubscriptionStatus {
    /// The payment was opened and is not confirmed yet.
    Pending,
    /// The payment was confirmed.
    Active,
}

impl SubscriptionStatus {
    /// The identifier under which the status is stored and transmitted.
    pub open spec fn name(self) -> Seq<char> {
        match self {
            SubscriptionStatus::Pending => "pending"@,
            SubscriptionStatus::Active => "active"@,
        }
    }

    /// The status that an identifier stands for, if any.
    pub open spec fn named(text: Seq<char>) -> Option<SubscriptionStatus> {
        if text == "pending"@ {
            Some(SubscriptionStatus::Pending)
        } else if text == "active"@ {
            Some(SubscriptionStatus::Active)
        } else {
            None
        }
    }

    /// The identifier under which the status is stored and transmitted.
    pub fn as_str(&self) -> (text: &'static str)
        ensures
            text@ == self.name(),
    {
        match self {
            SubscriptionStatus::Pending => "pending",
            SubscriptionStatus::Active => "active",
        }
    }

    /// Reads a status identifier. Only `pending` and `active` are statuses.
    pub fn parse(text: &str) -> (status: Option<SubscriptionStatus>)
        ensures
            status == SubscriptionStatus::named(text@),
    {
        if same_text(text, "pending") {
            Some(SubscriptionStatus::Pending)
        } else if same_text(text, "active") {
            Some(SubscriptionStatus::Active)
        } else {
            None
        }
    }

    /// Reading the identifier of a status gives the status back.
    pub proof fn name_round_trip(self)
        ensures
            SubscriptionStatus::named(self.name()) == Some(self),
    {
        reveal_strlit("pending");
        reveal_strlit("active");
        assert("pending"@.len() == 7);
        assert("active"@.len() == 6);
    }
}

/// The characters of an optional string.
pub open spec fn text_of(value: Option<String>) -> Option<Seq<char>> {
    match value {
        Some(text) => Some(text@),
        None => None,
    }
}

/// A registered user. Identifiers are 128-bit UUID values and instants are
/// seconds since the Unix epoch.
#[derive(Debug)]
pub struct User {
    pub id: u128,
    pub email: String,
    pub password_hash: String,
    pub full_name: Option<String>,
    /// Cached entitlement; only the reconciliation of payments changes it.
    pub subscription_plan: Plan,
    pub created_at: i64,
    pub updated_at: i64,
}

/// Mathematical value of a [`User`].
pub struct UserView {
    pub id: u128,
    pub email: Seq<char>,
    pub password_hash: Seq<char>,
    pub full_name: Option<Seq<char>>,
    pub subscription_plan: Plan,
    pub created_at: i64,
    pub updated_at: i64,
}

impl View for User {
    type V = UserView;

    open spec fn view(&self) -> UserView {
        UserView {
            id: self.id,
            email: self.email@,
            password_hash: self.password_hash@,
            full_name: text_of(self.full_name),
            subscription_plan: self.subscription_plan,
            created_at: self.created_at,
            updated_at: self.updated_at,
        }
    }
}

impl Clone for User {
    fn clone(&self) -> (copy: User)
        ensures
            copy@ == self@,
    {
        User {
            id: self.id,
            email: self.email.clone(),
            password_hash: self.password_hash.clone(),
            full_name: match &self.full_name {
                Some(name) => Some(name.clone()),
                None => None,
            },
            subscription_plan: self.subscription_plan,
            created_at: self.created_at,
            updated_at: self.updated_at,
        }
    }
}

/// One payment attempt of a user and what it bought.
#[derive(Debug)]
pub struct Subscription {
    pub id: u128,
    pub user_id: u128,
    pub plan_type: Plan,
    /// The reference under which the gateway knows the payment.
    pub paystack_reference: Option<String>,
    pub status: SubscriptionStatus,
    pub start_date: i64,
    /// Set when the subscription becomes active.
    pub end_date: Option<i64>,
    pub created_at: i64,
    pub updated_at: i64,
}

/// Mathematical value of a [`Subscription`].
pub struct SubscriptionView {
    pub id: u128,
    pub user_id: u128,
    pub plan_type: Plan,
    pub paystack_reference: Option<Seq<char>>,
    pub status: SubscriptionStatus,
    pub start_date: i64,
    pub end_date: Option<i64>,
    pub created_at: i64,
    pub updated_at: i64,
}

impl View for Subscription {
    type V = SubscriptionView;

    open spec fn view(&self) -> SubscriptionView {
        SubscriptionView {
            id: self.id,
            user_id: self.user_id,
            plan_type: self.plan_type,
            paystack_reference: text_of(self.paystack_reference),
            status: self.status,
            start_date: self.start_date,
            end_date: self.end_date,
            created_at: self.created_at,
            updated_at: self.updated_at,
        }
    }
}

impl Clone for Subscription {
    fn clone(&self) -> (copy: Subscription)
        ensures
            copy@ == self@,
    {
        Subscription {
            id: self.id,
            user_id: self.user_id,
            plan_type: self.plan_type,
            paystack_reference: match &self.paystack_reference {
                Some(reference) => Some(reference.clone()),
                None => None,
            },
            status: self.status,
            start_date: self.start_date,
            end_date: self.end_date,
            created_at: self.created_at,
            updated_at: self.updated_at,
        }
    }
}

/// What is needed to create a user.
#[derive(Debug)]
pub struct CreateUser {
    pub email: String,
    pub password: String,
    pub full_name: Option<String>,
}

/// A form and who owns it.
#[derive(Debug)]
pub struct Form {
    pub id: u128,
    pub user_id: u128,
    pub title: String,
    pub description: Option<String>,
    /// Whether users other than the owner may read the form.
    pub is_public: bool,
    /// Whether a response may come without a credential.
    pub allow_anonymous: bool,
    pub created_at: i64,
    pub updated_at: i64,
}

/// What is needed to create a form, or to replace its content.
#[derive(Debug)]
pub struct CreateForm {
    pub title: String,
    pub description: Option<String>,
    pub is_public: bool,
    pub allow_anonymous: bool,
}

/// One question of a form. The options are JSON text.
#[derive(Debug)]
pub struct FormElement {
    pub id: u128,
    pub form_id: u128,
    pub element_type: String,
    pub question: String,
    pub required: bool,
    pub options: Option<String>,
    pub order_index: i32,
    pub created_at: i64,
    pub updated_at: i64,
}

/// What is needed to create a question, or to replace its content.
#[derive(Debug)]
pub struct CreateFormElement {
    pub element_type: String,
    pub question: String,
    pub required: bool,
    pub options: Option<String>,
    pub order_index: i32,
}

/// One response to a form. The data is JSON text.
#[derive(Debug)]
pub struct FormResponse {
    pub id: u128,
    pub form_id: u128,
    /// The user who responded, unless the response is anonymous.
    pub respondent_id: Option<u128>,
    pub response_data: String,
    pub created_at: i64,
}

/// What is needed to record a response.
#[derive(Debug)]
pub struct CreateFormResponse {
    pub response_data: String,
}

/// What is needed to record a subscription.
#[derive(Debug)]
pub struct CreateSubscription {
    pub plan_type: String,
    pub paystack_reference: Option<String>,
}

/// A link under which a form is shared.
#[derive(Debug)]
pub struct FormShare {
    pub id: u128,
    pub form_id: u128,
    pub share_type: String,
    pub share_token: String,
    /// The instant from which the link is dead; none for a link that stays.
    pub expires_at: Option<i64>,
    pub created_at: i64,
}

/// What is needed to share a form.
#[derive(Debug)]
pub struct ShareRequest {
    pub share_type: String,
    pub expires_at: Option<i64>,
}

} // verus!
