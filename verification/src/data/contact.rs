//! A contact of the account.

use crate::fields::{read_flag, read_long, read_text, read_wide, write_member};
use crate::json::{members_of, Json, JsonValue, Member, Members};
use crate::record::{
    flag_at, lemma_field_with_member, long_at, mark, text_at, wide_at, with_member, Record,
};
use vstd::prelude::*;

verus! {

/// A contact.
#[derive(Clone, Debug, PartialEq, Eq)]
pub struct Contact {
    /// Whether the contact gets no marketing mail.
    pub is_excluded_from_campaigns: bool,
    /// The name that the account gave the contact.
    pub name: String,
    /// When the contact was added.
    pub created_at: String,
    /// How many messages were delivered to the contact.
    pub delivered_count: i64,
    /// The address of the contact.
    pub email: String,
    /// When the exclusion from campaigns last changed.
    pub exclusion_from_campaigns_updated_at: String,
    /// The ID of the contact.
    pub id: i128,
    /// Whether a subscription of the contact waits to be confirmed.
    pub is_opt_in_pending: bool,
    /// Whether the contact has complained about spam.
    pub is_spam_complaining: bool,
    /// When the contact was last active.
    pub last_activity_at: String,
    /// When the name or the exclusion last changed.
    pub last_update_at: String,
}

/// A contact of the account, as a mathematical object.
#[verifier::ext_equal]
pub struct ContactView {
    pub is_excluded_from_campaigns: bool,
    pub name: Seq<char>,
    pub created_at: Seq<char>,
    pub delivered_count: i64,
    pub email: Seq<char>,
    pub exclusion_from_campaigns_updated_at: Seq<char>,
    pub id: i128,
    pub is_opt_in_pending: bool,
    pub is_spam_complaining: bool,
    pub last_activity_at: Seq<char>,
    pub last_update_at: Seq<char>,
}

impl ContactView {
    /// The record in which every field holds its default.
    pub open spec fn blank() -> ContactView {
        ContactView {
            is_excluded_from_campaigns: false,
            name: Seq::empty(),
            created_at: Seq::empty(),
            delivered_count: 0i64,
            email: Seq::empty(),
            exclusion_from_campaigns_updated_at: Seq::empty(),
            id: 0i128,
            is_opt_in_pending: false,
            is_spam_complaining: false,
            last_activity_at: Seq::empty(),
            last_update_at: Seq::empty(),
        }
    }
}

impl View for Contact {
    type V = ContactView;

    open spec fn view(&self) -> ContactView {
        ContactView {
            is_excluded_from_campaigns: self.is_excluded_from_campaigns,
            name: self.name@,
            created_at: self.created_at@,
            delivered_count: self.delivered_count,
            email: self.email@,
            exclusion_from_campaigns_updated_at: self.exclusion_from_campaigns_updated_at@,
            id: self.id,
            is_opt_in_pending: self.is_opt_in_pending,
            is_spam_complaining: self.is_spam_complaining,
            last_activity_at: self.last_activity_at@,
            last_update_at: self.last_update_at@,
        }
    }
}

impl Default for Contact {
    fn default() -> (r: Self)
        ensures
            r@ == ContactView::blank(),
    {
        let r = Contact {
            is_excluded_from_campaigns: false,
            name: String::new(),
            created_at: String::new(),
            delivered_count: 0,
            email: String::new(),
            exclusion_from_campaigns_updated_at: String::new(),
            id: 0,
            is_opt_in_pending: false,
            is_spam_complaining: false,
            last_activity_at: String::new(),
            last_update_at: String::new(),
        };
        assert(r@ =~= ContactView::blank());
        r
    }
}

impl Record for Contact {
    open spec fn json_of(v: ContactView) -> JsonValue {
        let m = Members::empty();
        let m = with_member(
            m,
            "IsExcludedFromCampaigns"@,
            JsonValue::Bool(v.is_excluded_from_campaigns),
        );
        let m = with_member(m, "Name"@, JsonValue::Text(v.name));
        let m = with_member(m, "CreatedAt"@, JsonValue::Text(v.created_at));
        let m = with_member(m, "DeliveredCount"@, JsonValue::Int(v.delivered_count as int));
        let m = with_member(m, "Email"@, JsonValue::Text(v.email));
        let m = with_member(
            m,
            "ExclusionFromCampaignsUpdatedAt"@,
            JsonValue::Text(v.exclusion_from_campaigns_updated_at),
        );
        let m = with_member(m, "ID"@, JsonValue::Int(v.id as int));
        let m = with_member(m, "IsOptInPending"@, JsonValue::Bool(v.is_opt_in_pending));
        let m = with_member(m, "IsSpamComplaining"@, JsonValue::Bool(v.is_spam_complaining));
        let m = with_member(m, "LastActivityAt"@, JsonValue::Text(v.last_activity_at));
        let m = with_member(m, "LastUpdateAt"@, JsonValue::Text(v.last_update_at));
        JsonValue::Object(m)
    }

    open spec fn of_json(j: JsonValue) -> Option<ContactView> {
        if j is Object
            && flag_at(j, "IsExcludedFromCampaigns"@) is Some
            && text_at(j, "Name"@) is Some
            && text_at(j, "CreatedAt"@) is Some
            && long_at(j, "DeliveredCount"@) is Some
            && text_at(j, "Email"@) is Some
            && text_at(j, "ExclusionFromCampaignsUpdatedAt"@) is Some
            && wide_at(j, "ID"@) is Some
            && flag_at(j, "IsOptInPending"@) is Some
            && flag_at(j, "IsSpamComplaining"@) is Some
            && text_at(j, "LastActivityAt"@) is Some
            && text_at(j, "LastUpdateAt"@) is Some {
            Some(
                ContactView {
                    is_excluded_from_campaigns: flag_at(j, "IsExcludedFromCampaigns"@)->0,
                    name: text_at(j, "Name"@)->0,
                    created_at: text_at(j, "CreatedAt"@)->0,
                    delivered_count: long_at(j, "DeliveredCount"@)->0,
                    email: text_at(j, "Email"@)->0,
                    exclusion_from_campaigns_updated_at: text_at(
                        j,
                        "ExclusionFromCampaignsUpdatedAt"@,
                    )->0,
                    id: wide_at(j, "ID"@)->0,
                    is_opt_in_pending: flag_at(j, "IsOptInPending"@)->0,
                    is_spam_complaining: flag_at(j, "IsSpamComplaining"@)->0,
                    last_activity_at: text_at(j, "LastActivityAt"@)->0,
                    last_update_at: text_at(j, "LastUpdateAt"@)->0,
                },
            )
        } else {
            None
        }
    }

    open spec fn comes_back(v: ContactView) -> bool {
        true
    }

    fn is_valid(&self) -> (valid: bool) {
        true
    }

    fn to_json(&self) -> (j: Json) {
        let mut m: Vec<Member> = Vec::new();
        assert(members_of(m@) =~= Members::empty());
        write_member(
            &mut m,
            "IsExcludedFromCampaigns",
            Json::Bool(self.is_excluded_from_campaigns),
        );
        write_member(&mut m, "Name", Json::Text(self.name.clone()));
        write_member(&mut m, "CreatedAt", Json::Text(self.created_at.clone()));
        write_member(&mut m, "DeliveredCount", Json::Int(self.delivered_count as i128));
        write_member(&mut m, "Email", Json::Text(self.email.clone()));
        write_member(
            &mut m,
            "ExclusionFromCampaignsUpdatedAt",
            Json::Text(self.exclusion_from_campaigns_updated_at.clone()),
        );
        write_member(&mut m, "ID", Json::Int(self.id));
        write_member(&mut m, "IsOptInPending", Json::Bool(self.is_opt_in_pending));
        write_member(&mut m, "IsSpamComplaining", Json::Bool(self.is_spam_complaining));
        write_member(&mut m, "LastActivityAt", Json::Text(self.last_activity_at.clone()));
        write_member(&mut m, "LastUpdateAt", Json::Text(self.last_update_at.clone()));
        Json::object(m)
    }

    fn from_json(j: &Json) -> (r: Option<Self>) {
        match j {
            Json::Object(_) => {},
            _ => {
                return None;
            },
        }
        let is_excluded_from_campaigns = match read_flag(j, "IsExcludedFromCampaigns") {
            Some(v) => v,
            None => {
                return None;
            },
        };
        let name = match read_text(j, "Name") {
            Some(v) => v,
            None => {
                return None;
            },
        };
        let created_at = match read_text(j, "CreatedAt") {
            Some(v) => v,
            None => {
                return None;
            },
        };
        let delivered_count = match read_long(j, "DeliveredCount") {
            Some(v) => v,
            None => {
                return None;
            },
        };
        let email = match read_text(j, "Email") {
            Some(v) => v,
            None => {
                return None;
            },
        };
        let exclusion_from_campaigns_updated_at = match read_text(
            j,
            "ExclusionFromCampaignsUpdatedAt",
        ) {
            Some(v) => v,
            None => {
                return None;
            },
        };
        let id = match read_wide(j, "ID") {
            Some(v) => v,
            None => {
                return None;
            },
        };
        let is_opt_in_pending = match read_flag(j, "IsOptInPending") {
            Some(v) => v,
            None => {
                return None;
            },
        };
        let is_spam_complaining = match read_flag(j, "IsSpamComplaining") {
            Some(v) => v,
            None => {
                return None;
            },
        };
        let last_activity_at = match read_text(j, "LastActivityAt") {
            Some(v) => v,
            None => {
                return None;
            },
        };
        let last_update_at = match read_text(j, "LastUpdateAt") {
            Some(v) => v,
            None => {
                return None;
            },
        };
        let r = Contact {
            is_excluded_from_campaigns,
            name,
            created_at,
            delivered_count,
            email,
            exclusion_from_campaigns_updated_at,
            id,
            is_opt_in_pending,
            is_spam_complaining,
            last_activity_at,
            last_update_at,
        };
        proof {
            assert(Self::of_json(j@)->0 =~= r@);
            Self::read_is_valid(j@);
        }
        Some(r)
    }

    proof fn read_is_valid(j: JsonValue) {
    }

    proof fn round_trip(v: ContactView) {
        broadcast use lemma_field_with_member;

        reveal_strlit("IsExcludedFromCampaigns");
        reveal_strlit("Name");
        reveal_strlit("CreatedAt");
        reveal_strlit("DeliveredCount");
        reveal_strlit("Email");
        reveal_strlit("ExclusionFromCampaignsUpdatedAt");
        reveal_strlit("ID");
        reveal_strlit("IsOptInPending");
        reveal_strlit("IsSpamComplaining");
        reveal_strlit("LastActivityAt");
        reveal_strlit("LastUpdateAt");
        assert(mark("IsExcludedFromCampaigns"@) == (23nat, 'I', 'l', 'r', 's'));
        assert(mark("Name"@) == (4nat, 'N', 'a', 'm', 'e'));
        assert(mark("CreatedAt"@) == (9nat, 'C', 'e', 't', 't'));
        assert(mark("DeliveredCount"@) == (14nat, 'D', 'i', 'e', 't'));
        assert(mark("Email"@) == (5nat, 'E', 'm', 'a', 'l'));
        assert(mark("ExclusionFromCampaignsUpdatedAt"@) == (31nat, 'E', 'o', 'm', 't'));
        assert(mark("ID"@) == (2nat, 'I', 'I', 'D', 'D'));
        assert(mark("IsOptInPending"@) == (14nat, 'I', 'p', 'P', 'g'));
        assert(mark("IsSpamComplaining"@) == (17nat, 'I', 'a', 'm', 'g'));
        assert(mark("LastActivityAt"@) == (14nat, 'L', 't', 'i', 't'));
        assert(mark("LastUpdateAt"@) == (12nat, 'L', 't', 'd', 't'));
        assert(Self::of_json(Self::json_of(v))->0 =~= v);
    }
}

/// An object without members is read as the record in which every field
/// holds its default, and that record is one that comes back: a field that
/// is absent never makes a value unreadable.
pub proof fn lemma_blank_contact()
    ensures
        Contact::of_json(JsonValue::Object(Members::empty())) == Some(ContactView::blank()),
        Contact::comes_back(ContactView::blank()),
{
    let j = JsonValue::Object(Members::empty());
    assert(Contact::of_json(j)->0 =~= ContactView::blank());
}

} // verus!
