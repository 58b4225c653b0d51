//! The local user's identity: a display name and the two identifiers derived
//! from it, set at most once for the life of the daemon.

use vstd::prelude::*;
use crate::text::{alnum_only, is_ascii_alnum, keep_alnum};
use rand::Rng;

verus! {

/// Instance-name stem used when the display name has no alphanumeric character.
pub const DEFAULT_INSTANCE_STEM: &'static str = "LocalChat";

/// Length of the random suffix shared by both identifiers.
pub const SUFFIX_LEN: usize = 8;

/// The identifiers of this daemon's user, once a name has been chosen.
#[derive(Debug, Clone)]
pub struct UserIdentity {
    /// The name exactly as the user gave it.
    pub user_provided_name: String,
    /// Service-directory instance name: the alphanumeric part of the name,
    /// an underscore and the suffix.
    pub m_dns_instance_name: String,
    /// Sender and peer identifier: the name, `" - "` and the suffix.
    pub full_message_id: String,
}

/// What a [`UserIdentity`] holds, as sequences of characters.
pub struct IdentityModel {
    pub display_name: Seq<char>,
    pub instance_name: Seq<char>,
    pub full_id: Seq<char>,
}

impl View for UserIdentity {
    type V = IdentityModel;

    open spec fn view(&self) -> IdentityModel {
        IdentityModel {
            display_name: self.user_provided_name@,
            instance_name: self.m_dns_instance_name@,
            full_id: self.full_message_id@,
        }
    }
}

/// A suffix as the identity rules draw it: eight ASCII letters or digits.
pub open spec fn valid_suffix(s: Seq<char>) -> bool {
    s.len() == SUFFIX_LEN && forall|i: int| 0 <= i < s.len() ==> is_ascii_alnum(#[trigger] s[i])
}

/// The service-directory instance name for `name` and `suffix`.
pub open spec fn instance_name_of(name: Seq<char>, suffix: Seq<char>) -> Seq<char> {
    let stem = alnum_only(name);
    (if stem.len() == 0 { DEFAULT_INSTANCE_STEM@ } else { stem }) + seq!['_'] + suffix
}

/// The full message id for `name` and `suffix`.
pub open spec fn full_id_of(name: Seq<char>, suffix: Seq<char>) -> Seq<char> {
    name + " - "@ + suffix
}

/// The identity derived from `name` and `suffix`.
pub open spec fn identity_of(name: Seq<char>, suffix: Seq<char>) -> IdentityModel {
    IdentityModel {
        display_name: name,
        instance_name: instance_name_of(name, suffix),
        full_id: full_id_of(name, suffix),
    }
}

/// Derives both identifiers of `name` with the given random `suffix`.
pub fn derive_identity(name: &str, suffix: &str) -> (r: UserIdentity)
    ensures
        r@ == identity_of(name@, suffix@),
{
    let stem = keep_alnum(name);
    let mut instance = if stem.unicode_len() == 0 {
        String::from_str(DEFAULT_INSTANCE_STEM)
    } else {
        stem
    };
    instance.append("_");
    instance.append(suffix);
    let mut full = String::from_str(name);
    full.append(" - ");
    full.append(suffix);
    proof {
        reveal_strlit("_");
    }
    assert(instance@ =~= instance_name_of(name@, suffix@));
    UserIdentity {
        user_provided_name: String::from_str(name),
        m_dns_instance_name: instance,
        full_message_id: full,
    }
}

/// Why a second identity is refused.
#[derive(Debug, Clone, Copy, PartialEq, Eq, Structural)]
pub enum IdentityError {
    /// An identity was already chosen; it is kept as it was.
    AlreadySet,
}

/// The state and reply of one attempt to set the identity to `name` with
/// `suffix`: the first attempt stores the derived identity and answers with
/// its full id; any later one is refused and changes nothing.
pub open spec fn set_identity_step(
    state: Option<IdentityModel>,
    name: Seq<char>,
    suffix: Seq<char>,
) -> (Option<IdentityModel>, Result<Seq<char>, IdentityError>) {
    match state {
        Some(current) => (Some(current), Err(IdentityError::AlreadySet)),
        None => (Some(identity_of(name, suffix)), Ok(full_id_of(name, suffix))),
    }
}

/// The view of a reply of [`IdentityManager::set_identity`].
pub open spec fn reply_view(r: Result<String, IdentityError>) -> Result<Seq<char>, IdentityError> {
    match r {
        Ok(id) => Ok(id@),
        Err(e) => Err(e),
    }
}

/// Holds the identity of this daemon, which can be set once.
pub struct IdentityManager {
    identity: Option<UserIdentity>,
}

impl View for IdentityManager {
    type V = Option<IdentityModel>;

    closed spec fn view(&self) -> Option<IdentityModel> {
        match self.identity {
            Some(id) => Some(id@),
            None => None,
        }
    }
}

/// Relies on `rand::thread_rng` sampled through `rand::distributions::Alphanumeric`:
/// each character is drawn from the ASCII letters and digits.
#[verifier::external_body]
pub(crate) fn random_alphanumeric(len: usize) -> (r: String)
    ensures
        r@.len() == len,
        forall|i: int| 0 <= i < r@.len() ==> is_ascii_alnum(#[trigger] r@[i]),
{
    rand::thread_rng().sample_iter(&rand::distributions::Alphanumeric).take(len).map(char::from).collect()
}

impl IdentityManager {
    /// A manager with no identity yet.
    pub fn new() -> (r: IdentityManager)
        ensures
            r@ is None,
    {
        IdentityManager { identity: None }
    }

    /// The identity, if one was set.
    pub fn current(&self) -> (r: Option<UserIdentity>)
        ensures
            match r {
                Some(id) => self@ == Some(id@),
                None => self@ is None,
            },
    {
        match &self.identity {
            Some(id) => Some(UserIdentity {
                user_provided_name: id.user_provided_name.clone(),
                m_dns_instance_name: id.m_dns_instance_name.clone(),
                full_message_id: id.full_message_id.clone(),
            }),
            None => None,
        }
    }

    /// Sets the identity from `name` and an already drawn `suffix`; refused,
    /// with nothing changed, when an identity exists.
    pub fn set_identity(&mut self, name: &str, suffix: &str) -> (r: Result<String, IdentityError>)
        ensures
            (final(self)@, reply_view(r)) == set_identity_step(old(self)@, name@, suffix@),
    {
        if self.identity.is_some() {
            return Err(IdentityError::AlreadySet);
        }
        let id = derive_identity(name, suffix);
        let full = id.full_message_id.clone();
        self.identity = Some(id);
        Ok(full)
    }

    /// Sets the identity from `name` with a freshly drawn random suffix; refused,
    /// with nothing changed, when an identity exists.
    pub fn set_username(&mut self, name: &str) -> (r: Result<String, IdentityError>)
        ensures
            old(self)@ is Some ==> final(self)@ == old(self)@ && r == Err::<String, IdentityError>(IdentityError::AlreadySet),
            old(self)@ is None ==> exists|suffix: Seq<char>| valid_suffix(suffix)
                && (final(self)@, reply_view(r)) == set_identity_step(old(self)@, name@, suffix),
    {
        if self.identity.is_some() {
            return Err(IdentityError::AlreadySet);
        }
        let suffix = random_alphanumeric(SUFFIX_LEN);
        let r = self.set_identity(name, suffix.as_str());
        assert(valid_suffix(suffix@));
        r
    }
}

/// Once an identity is set, every later attempt is refused with
/// `AlreadySet` and the first identity stays, whatever name is offered.
pub proof fn lemma_identity_set_once(
    first: Seq<char>,
    first_suffix: Seq<char>,
    second: Seq<char>,
    second_suffix: Seq<char>,
)
    ensures
        ({
            let (s1, r1) = set_identity_step(None, first, first_suffix);
            let (s2, r2) = set_identity_step(s1, second, second_suffix);
            &&& r1 == Ok::<Seq<char>, IdentityError>(first + " - "@ + first_suffix)
            &&& r2 == Err::<Seq<char>, IdentityError>(IdentityError::AlreadySet)
            &&& s2 == Some(identity_of(first, first_suffix))
            &&& s2 == s1
        }),
{
}

} // verus!
