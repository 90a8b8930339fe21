//! Payment domain model and payment types.

use crate::calendar::Date;
use crate::text::{euro_string, euro_text, str_eq};
use vstd::prelude::*;

verus! {

/// Kind of a payment.
#[derive(Debug, Clone, Copy, PartialEq, Eq, Structural)]
pub enum PaymentType {
    /// Deposit paid when renting (Pfand).
    Deposit,
    /// Yearly extension fee (Verlängerung).
    Extension,
    /// Deposit refunded on return (Pfand-Rückgabe).
    DepositReturn,
}

/// Stored name of a payment type.
pub open spec fn payment_type_name(p: PaymentType) -> Seq<char> {
    match p {
        PaymentType::Deposit => "Deposit"@,
        PaymentType::Extension => "Extension"@,
        PaymentType::DepositReturn => "DepositReturn"@,
    }
}

/// German display name of a payment type.
pub open spec fn payment_type_display(p: PaymentType) -> Seq<char> {
    match p {
        PaymentType::Deposit => "Pfand"@,
        PaymentType::Extension => "Verlängerung"@,
        PaymentType::DepositReturn => "Pfand-Rückgabe"@,
    }
}

/// The payment type with a given stored name, if any.
pub open spec fn payment_type_named(s: Seq<char>) -> Option<PaymentType> {
    if s == "Deposit"@ {
        Some(PaymentType::Deposit)
    } else if s == "Extension"@ {
        Some(PaymentType::Extension)
    } else if s == "DepositReturn"@ {
        Some(PaymentType::DepositReturn)
    } else {
        None
    }
}

impl PaymentType {
    /// The stored name of the payment type.
    pub fn as_str(&self) -> (r: &'static str)
        ensures
            r@ == payment_type_name(*self),
    {
        match self {
            PaymentType::Deposit => "Deposit",
            PaymentType::Extension => "Extension",
            PaymentType::DepositReturn => "DepositReturn",
        }
    }

    /// Parses a stored name; any other text gives `None`.
    pub fn from_str(s: &str) -> (r: Option<Self>)
        ensures
            r == payment_type_named(s@),
    {
        if str_eq(s, "Deposit") {
            Some(PaymentType::Deposit)
        } else if str_eq(s, "Extension") {
            Some(PaymentType::Extension)
        } else if str_eq(s, "DepositReturn") {
            Some(PaymentType::DepositReturn)
        } else {
            None
        }
    }

    /// The German name shown to users.
    pub fn display_name(&self) -> (r: &'static str)
        ensures
            r@ == payment_type_display(*self),
    {
        match self {
            PaymentType::Deposit => "Pfand",
            PaymentType::Extension => "Verlängerung",
            PaymentType::DepositReturn => "Pfand-Rückgabe",
        }
    }
}

/// Parsing the stored name of a payment type gives that payment type back.
pub proof fn payment_type_name_roundtrip(p: PaymentType)
    ensures
        payment_type_named(payment_type_name(p)) == Some(p),
{
    reveal_strlit("Deposit");
    reveal_strlit("Extension");
    reveal_strlit("DepositReturn");
    assert("Deposit"@.len() != "Extension"@.len());
    assert("Deposit"@.len() != "DepositReturn"@.len());
    assert("Extension"@.len() != "DepositReturn"@.len());
}

/// A text that parses as a payment type is exactly that type's stored name.
pub proof fn payment_type_named_inverse(s: Seq<char>)
    requires
        payment_type_named(s) is Some,
    ensures
        payment_type_name(payment_type_named(s).unwrap()) == s,
{
}

/// A financial transaction linked to a rental.
#[derive(Debug, Clone)]
pub struct Payment {
    /// Identifier in the database (0 before it is stored).
    pub id: i64,
    /// Identifier of the rental the payment belongs to.
    pub rental_id: i64,
    /// Amount in cents; negative for refunds.
    pub amount_cents: i32,
    /// Kind of payment.
    pub payment_type: PaymentType,
    /// Day of the payment.
    pub payment_date: Date,
    /// Free-form notes.
    pub notes: Option<String>,
}

impl Payment {
    /// Creates a payment with id 0 and no notes.
    pub fn new(rental_id: i64, amount_cents: i32, payment_type: PaymentType, payment_date: Date) -> (r: Self)
        ensures
            r.id == 0,
            r.rental_id == rental_id,
            r.amount_cents == amount_cents,
            r.payment_type == payment_type,
            r.payment_date == payment_date,
            r.notes is None,
    {
        Payment { id: 0, rental_id, amount_cents, payment_type, payment_date, notes: None }
    }

    /// The amount formatted as euros with two decimals, e.g. `10.00 €`.
    pub fn format_amount(&self) -> (r: String)
        ensures
            r@ == euro_text(self.amount_cents as int),
    {
        euro_string(self.amount_cents as i64)
    }
}

} // verus!
