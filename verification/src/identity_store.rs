//! An in-memory store of user identities and of the platform accounts
//! linked to them.
//!
//! Each platform account (a platform and the user id on it) is linked to
//! at most one identity, each identity id occurs once, and each pending
//! link code occurs once: [`InMemoryIdentityStore::wf`] states this, `new`
//! establishes it and every operation keeps it.

use vstd::prelude::*;
use rand::Rng;
use crate::error::SecurityError;
use crate::identity::{frontend_display, FrontendType};
use crate::text::{chars_eq, digit_char, str_to_chars, IntoText};
use crate::user_identity::{is_v4_uuid, now_millis, uuid_string, uuid_text, AstridUserId, LinkVerificationMethod};

verus! {

/// Links a platform account to an Astrid identity.
#[derive(Debug, Clone)]
pub struct FrontendLink {
    /// The Astrid identity (its UUID's bits) the account is linked to.
    pub astrid_id: u128,
    /// Which platform.
    pub frontend: FrontendType,
    /// The user id on that platform.
    pub frontend_user_id: String,
    /// When the link was made, in milliseconds since the Unix epoch.
    pub linked_at: i64,
    /// How the link was verified.
    pub verification_method: LinkVerificationMethod,
    /// Whether this is the identity's first platform.
    pub is_primary: bool,
}

/// `l` links the account `user` on the platform shown as `display`.
pub open spec fn link_has_key(l: FrontendLink, display: Seq<char>, user: Seq<char>) -> bool {
    frontend_display(l.frontend) == display && l.frontend_user_id@ == user
}

/// `l` links the account `user` on platform `f`. Platforms are told apart
/// by their display form, which differs for any two different platforms.
pub open spec fn link_is_for(l: FrontendLink, f: FrontendType, user: Seq<char>) -> bool {
    link_has_key(l, frontend_display(f), user)
}

/// `l` has exactly these fields, the user id taken by its characters.
pub open spec fn is_link(
    l: FrontendLink,
    astrid_id: u128,
    frontend: FrontendType,
    user: Seq<char>,
    linked_at: i64,
    method: LinkVerificationMethod,
    is_primary: bool,
) -> bool {
    &&& l.astrid_id == astrid_id
    &&& l.frontend == frontend
    &&& l.frontend_user_id@ == user
    &&& l.linked_at == linked_at
    &&& l.verification_method == method
    &&& l.is_primary == is_primary
}

impl FrontendLink {
    /// A link made now.
    pub fn new<S: IntoText>(
        astrid_id: u128,
        frontend: FrontendType,
        frontend_user_id: S,
        verification_method: LinkVerificationMethod,
        is_primary: bool,
    ) -> (r: Self)
        ensures
            r.astrid_id == astrid_id,
            r.frontend == frontend,
            r.frontend_user_id@ == frontend_user_id.text_view(),
            r.verification_method == verification_method,
            r.is_primary == is_primary,
    {
        Self::made_at(astrid_id, frontend, frontend_user_id, verification_method, is_primary, now_millis())
    }

    /// A link made at `linked_at`.
    pub fn made_at<S: IntoText>(
        astrid_id: u128,
        frontend: FrontendType,
        frontend_user_id: S,
        verification_method: LinkVerificationMethod,
        is_primary: bool,
        linked_at: i64,
    ) -> (r: Self)
        ensures
            is_link(r, astrid_id, frontend, frontend_user_id.text_view(), linked_at, verification_method, is_primary),
    {
        FrontendLink {
            astrid_id,
            frontend,
            frontend_user_id: frontend_user_id.into_text(),
            linked_at,
            verification_method,
            is_primary,
        }
    }

    /// A copy of the link.
    pub fn duplicate(&self) -> (r: Self)
        ensures
            r == *self,
    {
        FrontendLink {
            astrid_id: self.astrid_id,
            frontend: self.frontend.duplicate(),
            frontend_user_id: self.frontend_user_id.clone(),
            linked_at: self.linked_at,
            verification_method: self.verification_method.duplicate(),
            is_primary: self.is_primary,
        }
    }
}

/// A link code waiting to be entered.
#[derive(Debug, Clone)]
pub struct PendingLinkCode {
    /// The code.
    pub code: String,
    /// The identity the new account is to be linked to.
    pub astrid_id: u128,
    /// The platform asking for the link.
    pub requesting_frontend: FrontendType,
    /// The user id on that platform.
    pub requesting_user_id: String,
    /// When the code expires, in milliseconds since the Unix epoch.
    pub expires_at: i64,
}

/// The time `now` is past `t`.
pub open spec fn is_past(now: i64, t: i64) -> bool {
    now > t
}

impl PendingLinkCode {
    /// Whether the code has expired at time `now`: `now` is past
    /// `expires_at`.
    pub fn is_expired_at(&self, now: i64) -> (r: bool)
        ensures
            r == is_past(now, self.expires_at),
    {
        now > self.expires_at
    }

    /// Whether the code has expired by the clock: the clock reads past
    /// `expires_at`.
    pub fn is_expired(&self) -> (r: bool)
        ensures
            exists|now: i64| r == #[trigger] is_past(now, self.expires_at),
    {
        let now = now_millis();
        self.is_expired_at(now)
    }
}

/// Some identity in `s` has id `id`.
pub open spec fn has_identity(s: Seq<AstridUserId>, id: u128) -> bool {
    exists|k: int| 0 <= k < s.len() && s[k].id == id
}

/// The position of the identity with id `id` in `s`.
pub open spec fn identity_index(s: Seq<AstridUserId>, id: u128) -> int {
    choose|k: int| 0 <= k < s.len() && s[k].id == id
}

/// No id occurs twice in `s`.
pub open spec fn ids_unique(s: Seq<AstridUserId>) -> bool {
    forall|i: int, j: int|
        #![trigger s[i], s[j]]
        0 <= i < s.len() && 0 <= j < s.len() && i != j ==> s[i].id != s[j].id
}

/// The identity with id `id` in `s`, if there is one.
pub open spec fn lookup_identity(s: Seq<AstridUserId>, id: u128) -> Option<AstridUserId> {
    if has_identity(s, id) {
        Some(s[identity_index(s, id)])
    } else {
        None
    }
}

/// `s` with `u` stored under its id: in place of the identity with that
/// id, or at the end.
pub open spec fn upsert_identity(s: Seq<AstridUserId>, u: AstridUserId) -> Seq<AstridUserId> {
    if has_identity(s, u.id) {
        s.update(identity_index(s, u.id), u)
    } else {
        s.push(u)
    }
}

/// Some link in `ls` is for the account `user` on platform `f`.
pub open spec fn has_link(ls: Seq<FrontendLink>, f: FrontendType, user: Seq<char>) -> bool {
    exists|k: int| 0 <= k < ls.len() && link_is_for(ls[k], f, user)
}

/// The position of the link for the account `user` on platform `f`.
pub open spec fn link_index(ls: Seq<FrontendLink>, f: FrontendType, user: Seq<char>) -> int {
    choose|k: int| 0 <= k < ls.len() && link_is_for(ls[k], f, user)
}

/// No account is linked twice in `ls`.
pub open spec fn links_unique(ls: Seq<FrontendLink>) -> bool {
    forall|i: int, j: int|
        #![trigger ls[i], ls[j]]
        0 <= i < ls.len() && 0 <= j < ls.len() && i != j ==> !link_is_for(
            ls[j],
            ls[i].frontend,
            ls[i].frontend_user_id@,
        )
}

/// Some pending code in `s` reads `code`.
pub open spec fn has_code(s: Seq<PendingLinkCode>, code: Seq<char>) -> bool {
    exists|k: int| 0 <= k < s.len() && s[k].code@ == code
}

/// The position of the pending code that reads `code`.
pub open spec fn code_index(s: Seq<PendingLinkCode>, code: Seq<char>) -> int {
    choose|k: int| 0 <= k < s.len() && s[k].code@ == code
}

/// No code occurs twice in `s`.
pub open spec fn codes_unique(s: Seq<PendingLinkCode>) -> bool {
    forall|i: int, j: int|
        #![trigger s[i], s[j]]
        0 <= i < s.len() && 0 <= j < s.len() && i != j ==> s[i].code@ != s[j].code@
}

/// `s` with `p` stored under its code: in place of the pending code that
/// reads the same, or at the end.
pub open spec fn upsert_code(s: Seq<PendingLinkCode>, p: PendingLinkCode) -> Seq<PendingLinkCode> {
    if has_code(s, p.code@) {
        s.update(code_index(s, p.code@), p)
    } else {
        s.push(p)
    }
}

proof fn lemma_identity_index(s: Seq<AstridUserId>, k: int)
    requires
        ids_unique(s),
        0 <= k < s.len(),
    ensures
        has_identity(s, s[k].id),
        identity_index(s, s[k].id) == k,
        lookup_identity(s, s[k].id) == Some(s[k]),
{
    let id = s[k].id;
    assert(0 <= k < s.len() && s[k].id == id);
    let j = identity_index(s, id);
    assert(s[j].id == id);
    if j != k {
        assert(s[j].id != s[k].id);
    }
}

proof fn lemma_link_index(ls: Seq<FrontendLink>, f: FrontendType, user: Seq<char>, k: int)
    requires
        links_unique(ls),
        0 <= k < ls.len(),
        link_is_for(ls[k], f, user),
    ensures
        has_link(ls, f, user),
        link_index(ls, f, user) == k,
{
    let j = link_index(ls, f, user);
    assert(link_is_for(ls[j], f, user));
    if j != k {
        assert(!link_is_for(ls[j], ls[k].frontend, ls[k].frontend_user_id@));
    }
}

proof fn lemma_code_index(s: Seq<PendingLinkCode>, k: int)
    requires
        codes_unique(s),
        0 <= k < s.len(),
    ensures
        has_code(s, s[k].code@),
        code_index(s, s[k].code@) == k,
{
    let c = s[k].code@;
    assert(0 <= k < s.len() && s[k].code@ == c);
    let j = code_index(s, c);
    if j != k {
        assert(s[j].code@ != s[k].code@);
    }
}

proof fn lemma_links_push(ls: Seq<FrontendLink>, link: FrontendLink)
    requires
        links_unique(ls),
        !has_link(ls, link.frontend, link.frontend_user_id@),
    ensures
        links_unique(ls.push(link)),
{
    let n = ls.push(link);
    assert forall|i: int, j: int|
        #![trigger n[i], n[j]]
        0 <= i < n.len() && 0 <= j < n.len() && i != j implies !link_is_for(
            n[j],
            n[i].frontend,
            n[i].frontend_user_id@,
        ) by {
        if i < ls.len() && j < ls.len() {
            assert(n[i] == ls[i] && n[j] == ls[j]);
            assert(!link_is_for(ls[j], ls[i].frontend, ls[i].frontend_user_id@));
        } else if j == ls.len() {
            assert(n[i] == ls[i]);
            assert(!link_is_for(ls[i], link.frontend, link.frontend_user_id@));
        } else {
            assert(n[j] == ls[j]);
            assert(!link_is_for(ls[j], link.frontend, link.frontend_user_id@));
        }
    }
}

proof fn lemma_links_remove(ls: Seq<FrontendLink>, k: int)
    requires
        links_unique(ls),
        0 <= k < ls.len(),
    ensures
        links_unique(ls.remove(k)),
        forall|f: FrontendType, u: Seq<char>|
            link_is_for(ls[k], f, u) ==> !has_link(#[trigger] ls.remove(k), f, u),
{
    let n = ls.remove(k);
    assert forall|i: int, j: int|
        #![trigger n[i], n[j]]
        0 <= i < n.len() && 0 <= j < n.len() && i != j implies !link_is_for(
            n[j],
            n[i].frontend,
            n[i].frontend_user_id@,
        ) by {
        let oi = if i < k { i } else { i + 1 };
        let oj = if j < k { j } else { j + 1 };
        assert(n[i] == ls[oi] && n[j] == ls[oj]);
        assert(!link_is_for(ls[oj], ls[oi].frontend, ls[oi].frontend_user_id@));
    }
    assert forall|f: FrontendType, u: Seq<char>| link_is_for(ls[k], f, u) implies !has_link(
        #[trigger] ls.remove(k),
        f,
        u,
    ) by {
        if has_link(n, f, u) {
            let i = choose|i: int| 0 <= i < n.len() && link_is_for(n[i], f, u);
            let oi = if i < k { i } else { i + 1 };
            assert(n[i] == ls[oi]);
            assert(!link_is_for(ls[oi], ls[k].frontend, ls[k].frontend_user_id@));
        }
    }
}

proof fn lemma_codes_remove(s: Seq<PendingLinkCode>, k: int)
    requires
        codes_unique(s),
        0 <= k < s.len(),
    ensures
        codes_unique(s.remove(k)),
        !has_code(s.remove(k), s[k].code@),
{
    let n = s.remove(k);
    assert forall|i: int, j: int|
        #![trigger n[i], n[j]]
        0 <= i < n.len() && 0 <= j < n.len() && i != j implies n[i].code@ != n[j].code@ by {
        let oi = if i < k { i } else { i + 1 };
        let oj = if j < k { j } else { j + 1 };
        assert(n[i] == s[oi] && n[j] == s[oj]);
    }
    if has_code(n, s[k].code@) {
        let i = choose|i: int| 0 <= i < n.len() && n[i].code@ == s[k].code@;
        let oi = if i < k { i } else { i + 1 };
        assert(n[i] == s[oi]);
    }
}

proof fn lemma_upsert_identity(s: Seq<AstridUserId>, u: AstridUserId)
    requires
        ids_unique(s),
    ensures
        ids_unique(upsert_identity(s, u)),
        lookup_identity(upsert_identity(s, u), u.id) == Some(u),
{
    let n = upsert_identity(s, u);
    if has_identity(s, u.id) {
        let k = identity_index(s, u.id);
        assert forall|i: int, j: int|
            #![trigger n[i], n[j]]
            0 <= i < n.len() && 0 <= j < n.len() && i != j implies n[i].id != n[j].id by {
            assert(s[i].id != s[j].id);
        }
        lemma_identity_index(n, k);
    } else {
        assert forall|i: int, j: int|
            #![trigger n[i], n[j]]
            0 <= i < n.len() && 0 <= j < n.len() && i != j implies n[i].id != n[j].id by {
            if i < s.len() && j < s.len() {
                assert(s[i].id != s[j].id);
            } else if i < s.len() {
                assert(n[i] == s[i]);
            } else {
                assert(n[j] == s[j]);
            }
        }
        lemma_identity_index(n, s.len() as int);
    }
}

proof fn lemma_upsert_code(s: Seq<PendingLinkCode>, p: PendingLinkCode)
    requires
        codes_unique(s),
    ensures
        codes_unique(upsert_code(s, p)),
{
    let n = upsert_code(s, p);
    if has_code(s, p.code@) {
        let k = code_index(s, p.code@);
        assert forall|i: int, j: int|
            #![trigger n[i], n[j]]
            0 <= i < n.len() && 0 <= j < n.len() && i != j implies n[i].code@ != n[j].code@ by {
            assert(s[i].code@ != s[j].code@);
        }
    } else {
        assert forall|i: int, j: int|
            #![trigger n[i], n[j]]
            0 <= i < n.len() && 0 <= j < n.len() && i != j implies n[i].code@ != n[j].code@ by {
            if i < s.len() && j < s.len() {
                assert(s[i].code@ != s[j].code@);
            } else if i < s.len() {
                assert(n[i] == s[i]);
            } else {
                assert(n[j] == s[j]);
            }
        }
    }
}

/// What adding `link` to the links `old` gives: refused, with the links
/// unchanged, when its account is already linked; else the links with
/// `link` at the end.
pub open spec fn link_outcome(
    old: Seq<FrontendLink>,
    new: Seq<FrontendLink>,
    link: FrontendLink,
    r: Result<(), SecurityError>,
) -> bool {
    if has_link(old, link.frontend, link.frontend_user_id@) {
        &&& new == old
        &&& (r matches Err(SecurityError::FrontendAlreadyLinked { frontend, existing_id }) && frontend@
            == frontend_display(link.frontend) && existing_id@ == uuid_text(link.astrid_id))
    } else {
        &&& new == old.push(link)
        &&& r is Ok
    }
}

/// What creating an identity gives: refused, with nothing changed, when
/// the account is already linked; else `identity`, stored under its id,
/// and a primary link of the account to it, made at `linked_at`.
pub open spec fn creation_outcome(
    old_ids: Seq<AstridUserId>,
    old_links: Seq<FrontendLink>,
    new_ids: Seq<AstridUserId>,
    new_links: Seq<FrontendLink>,
    identity: AstridUserId,
    frontend: FrontendType,
    user: Seq<char>,
    linked_at: i64,
    r: Result<AstridUserId, SecurityError>,
) -> bool {
    if has_link(old_links, frontend, user) {
        &&& new_ids == old_ids
        &&& new_links == old_links
        &&& (r matches Err(SecurityError::FrontendAlreadyLinked { frontend: shown, existing_id }) && shown@
            == frontend_display(frontend) && existing_id@ == "unknown"@)
    } else {
        &&& r == Ok::<AstridUserId, SecurityError>(identity)
        &&& new_ids == upsert_identity(old_ids, identity)
        &&& new_links.len() == old_links.len() + 1
        &&& new_links.drop_last() == old_links
        &&& is_link(
            new_links.last(),
            identity.id,
            frontend,
            user,
            linked_at,
            LinkVerificationMethod::InitialCreation,
            true,
        )
    }
}

/// The last `width` decimal digits of `n`, zero-padded on the left.
pub open spec fn fixed_digits(n: nat, width: nat) -> Seq<char>
    decreases width,
{
    if width == 0 {
        Seq::empty()
    } else {
        fixed_digits(n / 10, (width - 1) as nat).push(digit_char(n % 10))
    }
}

/// The last `width` decimal digits of `n`, zero-padded on the left.
fn fixed_width_decimal(n: u32, width: usize) -> (r: Vec<char>)
    ensures
        r@ == fixed_digits(n as nat, width as nat),
    decreases width,
{
    if width == 0 {
        Vec::new()
    } else {
        let mut v = fixed_width_decimal(n / 10, width - 1);
        let d: u8 = (n % 10) as u8;
        let c: char = (d + 48) as char;
        assert(c == digit_char((n % 10) as nat));
        v.push(c);
        v
    }
}

/// How long a link code stays valid: five minutes, in milliseconds.
pub const LINK_CODE_LIFETIME_MS: i64 = 300_000;

/// When a code issued at `now` expires: five minutes later, or at the end
/// of the clock's range.
pub open spec fn code_expiry(now: i64) -> i64 {
    if now <= i64::MAX - LINK_CODE_LIFETIME_MS {
        (now + LINK_CODE_LIFETIME_MS) as i64
    } else {
        i64::MAX
    }
}

/// `p` has exactly these fields, the strings taken by their characters.
pub open spec fn is_pending(
    p: PendingLinkCode,
    code: Seq<char>,
    astrid_id: u128,
    frontend: FrontendType,
    user: Seq<char>,
    expires_at: i64,
) -> bool {
    &&& p.code@ == code
    &&& p.astrid_id == astrid_id
    &&& p.requesting_frontend == frontend
    &&& p.requesting_user_id@ == user
    &&& p.expires_at == expires_at
}

/// What issuing a link code gives: the code, the nine decimal digits of
/// `number`, and a pending code for it stored under the code, asking to
/// link the account `user` on `frontend` to `astrid_id`, expiring five
/// minutes after `now`.
pub open spec fn code_issued(
    old: Seq<PendingLinkCode>,
    new: Seq<PendingLinkCode>,
    r: Result<String, SecurityError>,
    astrid_id: u128,
    frontend: FrontendType,
    user: Seq<char>,
    number: u32,
    now: i64,
) -> bool {
    &&& r matches Ok(code)
    &&& code@ == fixed_digits(number as nat, 9)
    &&& exists|p: PendingLinkCode|
        #[trigger] is_pending(p, code@, astrid_id, frontend, user, code_expiry(now)) && new
            == upsert_code(old, p)
}

/// What entering a link code at time `now` gives. An unknown code is
/// refused with nothing changed. A known code is used up; if it has
/// expired, the request is refused; else the requesting account is linked
/// to the code's identity, unless it is already linked.
pub open spec fn verify_outcome(
    old_codes: Seq<PendingLinkCode>,
    old_links: Seq<FrontendLink>,
    new_codes: Seq<PendingLinkCode>,
    new_links: Seq<FrontendLink>,
    code: Seq<char>,
    verified_via: FrontendType,
    now: i64,
    r: Result<FrontendLink, SecurityError>,
) -> bool {
    if !has_code(old_codes, code) {
        &&& new_codes == old_codes
        &&& new_links == old_links
        &&& (r matches Err(SecurityError::IdentityVerificationFailed(m)) && m@ == "Invalid or expired code"@)
    } else {
        let k = code_index(old_codes, code);
        let p = old_codes[k];
        &&& new_codes == old_codes.remove(k)
        &&& if is_past(now, p.expires_at) {
            &&& new_links == old_links
            &&& r == Err::<FrontendLink, SecurityError>(SecurityError::VerificationExpired)
        } else if has_link(old_links, p.requesting_frontend, p.requesting_user_id@) {
            &&& new_links == old_links
            &&& (r matches Err(SecurityError::FrontendAlreadyLinked { frontend, existing_id }) && frontend@
                == frontend_display(p.requesting_frontend) && existing_id@ == uuid_text(p.astrid_id))
        } else {
            &&& r matches Ok(l)
            &&& is_link(
                l,
                p.astrid_id,
                p.requesting_frontend,
                p.requesting_user_id@,
                now,
                LinkVerificationMethod::CodeVerification { verified_via },
                false,
            )
            &&& new_links == old_links.push(l)
        }
    }
}

/// `rand::Rng::gen_range(0..1_000_000_000)` on `rand::rngs::OsRng`, the
/// operating system's random source: a number below one billion. Which
/// one is chance. `OsRng` panics if the system source fails.
#[verifier::external_body]
fn random_link_number() -> (r: u32)
    ensures
        r < 1_000_000_000,
{
    rand::rngs::OsRng.gen_range(0..1_000_000_000u32)
}

/// The identity that the account `user` on `f` resolves to through
/// `links`: the one its link points to, if it is linked and that
/// identity is stored.
pub open spec fn resolved(
    ids: Seq<AstridUserId>,
    links: Seq<FrontendLink>,
    f: FrontendType,
    user: Seq<char>,
) -> Option<AstridUserId> {
    if has_link(links, f, user) {
        lookup_identity(ids, links[link_index(links, f, user)].astrid_id)
    } else {
        None
    }
}

/// An in-memory identity store.
pub struct InMemoryIdentityStore {
    identities: Vec<AstridUserId>,
    links: Vec<FrontendLink>,
    pending_codes: Vec<PendingLinkCode>,
}

impl InMemoryIdentityStore {
    /// The identities, in the order they were first stored.
    pub closed spec fn identity_seq(&self) -> Seq<AstridUserId> {
        self.identities@
    }

    /// The platform links, in the order they were made.
    pub closed spec fn link_seq(&self) -> Seq<FrontendLink> {
        self.links@
    }

    /// The pending link codes.
    pub closed spec fn code_seq(&self) -> Seq<PendingLinkCode> {
        self.pending_codes@
    }

    /// Each identity id, each linked account and each pending code occurs
    /// once.
    pub open spec fn wf(&self) -> bool {
        &&& ids_unique(self.identity_seq())
        &&& links_unique(self.link_seq())
        &&& codes_unique(self.code_seq())
    }

    /// An empty store.
    pub fn new() -> (r: Self)
        ensures
            r.wf(),
            r.identity_seq() == Seq::<AstridUserId>::empty(),
            r.link_seq() == Seq::<FrontendLink>::empty(),
            r.code_seq() == Seq::<PendingLinkCode>::empty(),
    {
        InMemoryIdentityStore { identities: Vec::new(), links: Vec::new(), pending_codes: Vec::new() }
    }

    /// The store behind a shared pointer.
    pub fn shared(self) -> (r: std::sync::Arc<Self>)
        ensures
            *r == self,
    {
        std::sync::Arc::new(self)
    }

    /// The position of the link for the account `user` on the platform
    /// shown as `display`.
    fn find_link(&self, display: &Vec<char>, user: &Vec<char>) -> (r: Option<usize>)
        ensures
            match r {
                Some(k) => k < self.links@.len() && link_has_key(self.links@[k as int], display@, user@),
                None => forall|k: int|
                    0 <= k < self.links@.len() ==> !link_has_key(#[trigger] self.links@[k], display@, user@),
            },
    {
        let mut i: usize = 0;
        while i < self.links.len()
            invariant
                i <= self.links@.len(),
                forall|k: int| 0 <= k < i ==> !link_has_key(#[trigger] self.links@[k], display@, user@),
            decreases self.links@.len() - i,
        {
            let l = &self.links[i];
            let d = l.frontend.to_string();
            if chars_eq(&str_to_chars(d.as_str()), display) && chars_eq(
                &str_to_chars(l.frontend_user_id.as_str()),
                user,
            ) {
                return Some(i);
            }
            i = i + 1;
        }
        None
    }

    /// The position of the identity with id `id`.
    fn find_identity(&self, id: u128) -> (r: Option<usize>)
        ensures
            match r {
                Some(k) => k < self.identities@.len() && self.identities@[k as int].id == id,
                None => !has_identity(self.identities@, id),
            },
    {
        let mut i: usize = 0;
        while i < self.identities.len()
            invariant
                i <= self.identities@.len(),
                forall|k: int| 0 <= k < i ==> (#[trigger] self.identities@[k]).id != id,
            decreases self.identities@.len() - i,
        {
            if self.identities[i].id == id {
                return Some(i);
            }
            i = i + 1;
        }
        None
    }

    /// The position of the pending code that reads `code`.
    fn find_code(&self, code: &Vec<char>) -> (r: Option<usize>)
        ensures
            match r {
                Some(k) => k < self.pending_codes@.len() && self.pending_codes@[k as int].code@ == code@,
                None => !has_code(self.pending_codes@, code@),
            },
    {
        let mut i: usize = 0;
        while i < self.pending_codes.len()
            invariant
                i <= self.pending_codes@.len(),
                forall|k: int| 0 <= k < i ==> (#[trigger] self.pending_codes@[k]).code@ != code@,
            decreases self.pending_codes@.len() - i,
        {
            if chars_eq(&str_to_chars(self.pending_codes[i].code.as_str()), code) {
                return Some(i);
            }
            i = i + 1;
        }
        None
    }

    /// Stores `identity` under its id, in place of any identity with that
    /// id.
    fn store_identity(&mut self, identity: AstridUserId)
        requires
            ids_unique(old(self).identities@),
        ensures
            final(self).identities@ == upsert_identity(old(self).identities@, identity),
            ids_unique(final(self).identities@),
            final(self).links@ == old(self).links@,
            final(self).pending_codes@ == old(self).pending_codes@,
    {
        proof {
            lemma_upsert_identity(self.identities@, identity);
        }
        match self.find_identity(identity.id) {
            Some(k) => {
                proof {
                    lemma_identity_index(self.identities@, k as int);
                }
                self.identities.set(k, identity);
            },
            None => {
                self.identities.push(identity);
            },
        }
    }

    /// Links an account to an identity, unless the account is already
    /// linked.
    pub fn create_link(&mut self, link: FrontendLink) -> (r: Result<(), SecurityError>)
        requires
            old(self).wf(),
        ensures
            final(self).wf(),
            link_outcome(old(self).link_seq(), final(self).link_seq(), link, r),
            final(self).identity_seq() == old(self).identity_seq(),
            final(self).code_seq() == old(self).code_seq(),
    {
        let display = str_to_chars(link.frontend.to_string().as_str());
        let user = str_to_chars(link.frontend_user_id.as_str());
        match self.find_link(&display, &user) {
            Some(k) => {
                proof {
                    lemma_link_index(self.links@, link.frontend, link.frontend_user_id@, k as int);
                }
                Err(
                    SecurityError::FrontendAlreadyLinked {
                        frontend: link.frontend.to_string(),
                        existing_id: uuid_string(link.astrid_id),
                    },
                )
            },
            None => {
                proof {
                    lemma_links_push(self.links@, link);
                }
                self.links.push(link);
                Ok(())
            },
        }
    }

    /// Creates an identity for an account seen for the first time:
    /// `identity`, stored under its id, with a primary link of the account
    /// made at `linked_at`. Refused when the account is already linked.
    pub fn create_identity_from(
        &mut self,
        identity: AstridUserId,
        frontend: FrontendType,
        frontend_user_id: &str,
        linked_at: i64,
    ) -> (r: Result<AstridUserId, SecurityError>)
        requires
            old(self).wf(),
        ensures
            final(self).wf(),
            creation_outcome(
                old(self).identity_seq(),
                old(self).link_seq(),
                final(self).identity_seq(),
                final(self).link_seq(),
                identity,
                frontend,
                frontend_user_id@,
                linked_at,
                r,
            ),
            final(self).code_seq() == old(self).code_seq(),
    {
        proof {
            reveal_strlit("unknown");
        }
        let display = str_to_chars(frontend.to_string().as_str());
        let user = str_to_chars(frontend_user_id);
        match self.find_link(&display, &user) {
            Some(k) => {
                proof {
                    lemma_link_index(self.links@, frontend, frontend_user_id@, k as int);
                }
                return Err(
                    SecurityError::FrontendAlreadyLinked {
                        frontend: frontend.to_string(),
                        existing_id: String::from_str("unknown"),
                    },
                );
            },
            None => {},
        }
        let result = identity.duplicate();
        let id = identity.id;
        self.store_identity(identity);
        let link = FrontendLink::made_at(
            id,
            frontend,
            frontend_user_id,
            LinkVerificationMethod::InitialCreation,
            true,
            linked_at,
        );
        proof {
            lemma_links_push(self.links@, link);
        }
        let ghost before = self.links@;
        self.links.push(link);
        proof {
            assert(self.links@.drop_last() =~= before);
        }
        Ok(result)
    }

    /// Creates an identity for an account seen for the first time: a new
    /// identity with a random id and the default principal, linked to the
    /// account as its primary platform. Refused when the account is
    /// already linked.
    pub fn create_identity(&mut self, frontend: FrontendType, frontend_user_id: &str) -> (r: Result<
        AstridUserId,
        SecurityError,
    >)
        requires
            old(self).wf(),
        ensures
            final(self).wf(),
            exists|identity: AstridUserId, linked_at: i64|
                {
                    &&& is_v4_uuid(identity.id)
                    &&& identity.principal@ == "default"@
                    &&& identity.public_key is None
                    &&& identity.display_name is None
                    &&& #[trigger] creation_outcome(
                        old(self).identity_seq(),
                        old(self).link_seq(),
                        final(self).identity_seq(),
                        final(self).link_seq(),
                        identity,
                        frontend,
                        frontend_user_id@,
                        linked_at,
                        r,
                    )
                },
            final(self).code_seq() == old(self).code_seq(),
    {
        let identity = AstridUserId::new();
        let linked_at = now_millis();
        let ghost chosen = identity;
        let r = self.create_identity_from(identity, frontend, frontend_user_id, linked_at);
        proof {
            assert(creation_outcome(
                old(self).identity_seq(),
                old(self).link_seq(),
                self.identity_seq(),
                self.link_seq(),
                chosen,
                frontend,
                frontend_user_id@,
                linked_at,
                r,
            ));
        }
        r
    }

    /// Replaces the identity with the same id. Refused, with nothing
    /// changed, when there is none.
    pub fn update_identity(&mut self, identity: AstridUserId) -> (r: Result<(), SecurityError>)
        requires
            old(self).wf(),
        ensures
            final(self).wf(),
            if has_identity(old(self).identity_seq(), identity.id) {
                &&& r is Ok
                &&& final(self).identity_seq() == upsert_identity(old(self).identity_seq(), identity)
            } else {
                &&& (r matches Err(SecurityError::IdentityNotFound(m)) && m@ == uuid_text(identity.id))
                &&& final(self).identity_seq() == old(self).identity_seq()
            },
            final(self).link_seq() == old(self).link_seq(),
            final(self).code_seq() == old(self).code_seq(),
    {
        match self.find_identity(identity.id) {
            Some(_) => {
                self.store_identity(identity);
                Ok(())
            },
            None => Err(SecurityError::IdentityNotFound(uuid_string(identity.id))),
        }
    }

    /// Removes the link of an account. Refused, with nothing changed, when
    /// the account is not linked.
    pub fn remove_link(&mut self, frontend: &FrontendType, frontend_user_id: &str) -> (r: Result<
        (),
        SecurityError,
    >)
        requires
            old(self).wf(),
        ensures
            final(self).wf(),
            if has_link(old(self).link_seq(), *frontend, frontend_user_id@) {
                &&& r is Ok
                &&& final(self).link_seq() == old(self).link_seq().remove(
                    link_index(old(self).link_seq(), *frontend, frontend_user_id@),
                )
            } else {
                &&& (r matches Err(SecurityError::IdentityNotFound(m)) && m@ == "No link found for "@
                    + frontend_display(*frontend) + ":"@ + frontend_user_id@)
                &&& final(self).link_seq() == old(self).link_seq()
            },
            final(self).identity_seq() == old(self).identity_seq(),
            final(self).code_seq() == old(self).code_seq(),
    {
        proof {
            reveal_strlit("No link found for ");
            reveal_strlit(":");
        }
        let shown = frontend.to_string();
        let display = str_to_chars(shown.as_str());
        let user = str_to_chars(frontend_user_id);
        match self.find_link(&display, &user) {
            Some(k) => {
                proof {
                    lemma_link_index(self.links@, *frontend, frontend_user_id@, k as int);
                    lemma_links_remove(self.links@, k as int);
                }
                self.links.remove(k);
                Ok(())
            },
            None => {
                let mut m = String::from_str("No link found for ");
                m.append(shown.as_str());
                m.append(":");
                m.append(frontend_user_id);
                Err(SecurityError::IdentityNotFound(m))
            },
        }
    }

    /// The links of the identity `astrid_id`, in the order they were made.
    pub fn get_links(&self, astrid_id: u128) -> (r: Vec<FrontendLink>)
        ensures
            r@ == self.link_seq().filter(|l: FrontendLink| l.astrid_id == astrid_id),
    {
        let mut out: Vec<FrontendLink> = Vec::new();
        let mut i: usize = 0;
        proof {
            reveal(Seq::filter);
            assert(self.links@.take(0) =~= Seq::<FrontendLink>::empty());
        }
        while i < self.links.len()
            invariant
                i <= self.links@.len(),
                out@ == self.links@.take(i as int).filter(|l: FrontendLink| l.astrid_id == astrid_id),
            decreases self.links@.len() - i,
        {
            proof {
                reveal(Seq::filter);
                assert(self.links@.take(i + 1).drop_last() =~= self.links@.take(i as int));
                assert(self.links@.take(i + 1).last() == self.links@[i as int]);
            }
            if self.links[i].astrid_id == astrid_id {
                out.push(self.links[i].duplicate());
            }
            i = i + 1;
        }
        assert(self.links@.take(i as int) =~= self.links@);
        out
    }

    /// Stores `p` under its code, in place of any pending code that reads
    /// the same.
    fn store_code(&mut self, p: PendingLinkCode)
        requires
            codes_unique(old(self).pending_codes@),
        ensures
            final(self).pending_codes@ == upsert_code(old(self).pending_codes@, p),
            codes_unique(final(self).pending_codes@),
            final(self).links@ == old(self).links@,
            final(self).identities@ == old(self).identities@,
    {
        proof {
            lemma_upsert_code(self.pending_codes@, p);
        }
        let code = str_to_chars(p.code.as_str());
        match self.find_code(&code) {
            Some(k) => {
                proof {
                    lemma_code_index(self.pending_codes@, k as int);
                }
                self.pending_codes.set(k, p);
            },
            None => {
                self.pending_codes.push(p);
            },
        }
    }

    /// Issues the link code made of the nine decimal digits of `number`,
    /// at time `now`: the account `requesting_user_id` on
    /// `requesting_frontend` asks to be linked to `astrid_id`, and the
    /// code is to be entered on a platform already linked to it.
    pub fn generate_link_code_with(
        &mut self,
        astrid_id: u128,
        requesting_frontend: FrontendType,
        requesting_user_id: &str,
        number: u32,
        now: i64,
    ) -> (r: Result<String, SecurityError>)
        requires
            old(self).wf(),
            number < 1_000_000_000,
        ensures
            final(self).wf(),
            code_issued(
                old(self).code_seq(),
                final(self).code_seq(),
                r,
                astrid_id,
                requesting_frontend,
                requesting_user_id@,
                number,
                now,
            ),
            final(self).identity_seq() == old(self).identity_seq(),
            final(self).link_seq() == old(self).link_seq(),
    {
        let digits = fixed_width_decimal(number, 9);
        let mut code = String::new();
        let mut i: usize = 0;
        while i < digits.len()
            invariant
                i <= digits@.len(),
                code@ == digits@.take(i as int),
            decreases digits@.len() - i,
        {
            code.push(digits[i]);
            i = i + 1;
            assert(code@ =~= digits@.take(i as int));
        }
        assert(digits@.take(i as int) =~= digits@);
        let expires_at: i64 = if now <= i64::MAX - LINK_CODE_LIFETIME_MS {
            now + LINK_CODE_LIFETIME_MS
        } else {
            i64::MAX
        };
        let pending = PendingLinkCode {
            code: code.clone(),
            astrid_id,
            requesting_frontend,
            requesting_user_id: String::from_str(requesting_user_id),
            expires_at,
        };
        let ghost stored = pending;
        self.store_code(pending);
        proof {
            assert(is_pending(stored, code@, astrid_id, requesting_frontend, requesting_user_id@, code_expiry(now)));
        }
        Ok(code)
    }

    /// Issues a random nine-digit link code, valid for five minutes: the
    /// account `requesting_user_id` on `requesting_frontend` asks to be
    /// linked to `astrid_id`.
    pub fn generate_link_code(
        &mut self,
        astrid_id: u128,
        requesting_frontend: FrontendType,
        requesting_user_id: &str,
    ) -> (r: Result<String, SecurityError>)
        requires
            old(self).wf(),
        ensures
            final(self).wf(),
            exists|number: u32, now: i64|
                number < 1_000_000_000 && #[trigger] code_issued(
                    old(self).code_seq(),
                    final(self).code_seq(),
                    r,
                    astrid_id,
                    requesting_frontend,
                    requesting_user_id@,
                    number,
                    now,
                ),
            final(self).identity_seq() == old(self).identity_seq(),
            final(self).link_seq() == old(self).link_seq(),
    {
        let number = random_link_number();
        let now = now_millis();
        self.generate_link_code_with(astrid_id, requesting_frontend, requesting_user_id, number, now)
    }

    /// Enters a link code at time `now`, on the platform `verified_via`.
    /// The code is used up. An expired code is refused; otherwise the
    /// account that asked for it is linked to the code's identity, unless
    /// it is already linked.
    pub fn verify_link_code_at(&mut self, code: &str, verified_via: FrontendType, now: i64) -> (r:
        Result<FrontendLink, SecurityError>)
        requires
            old(self).wf(),
        ensures
            final(self).wf(),
            verify_outcome(
                old(self).code_seq(),
                old(self).link_seq(),
                final(self).code_seq(),
                final(self).link_seq(),
                code@,
                verified_via,
                now,
                r,
            ),
            final(self).identity_seq() == old(self).identity_seq(),
    {
        proof {
            reveal_strlit("Invalid or expired code");
        }
        let code_chars = str_to_chars(code);
        let k = match self.find_code(&code_chars) {
            Some(k) => k,
            None => {
                return Err(
                    SecurityError::IdentityVerificationFailed(String::from_str("Invalid or expired code")),
                );
            },
        };
        proof {
            lemma_code_index(self.pending_codes@, k as int);
            lemma_codes_remove(self.pending_codes@, k as int);
        }
        let pending = self.pending_codes.remove(k);
        if pending.is_expired_at(now) {
            return Err(SecurityError::VerificationExpired);
        }
        let link = FrontendLink::made_at(
            pending.astrid_id,
            pending.requesting_frontend,
            pending.requesting_user_id,
            LinkVerificationMethod::CodeVerification { verified_via },
            false,
            now,
        );
        let copy = link.duplicate();
        match self.create_link(link) {
            Ok(()) => Ok(copy),
            Err(e) => Err(e),
        }
    }

    /// Enters a link code now, on the platform `verified_via`. The code is
    /// used up. An expired code is refused; otherwise the account that
    /// asked for it is linked to the code's identity, unless it is
    /// already linked.
    pub fn verify_link_code(&mut self, code: &str, verified_via: FrontendType) -> (r: Result<
        FrontendLink,
        SecurityError,
    >)
        requires
            old(self).wf(),
        ensures
            final(self).wf(),
            exists|now: i64|
                #[trigger] verify_outcome(
                    old(self).code_seq(),
                    old(self).link_seq(),
                    final(self).code_seq(),
                    final(self).link_seq(),
                    code@,
                    verified_via,
                    now,
                    r,
                ),
            final(self).identity_seq() == old(self).identity_seq(),
    {
        let now = now_millis();
        self.verify_link_code_at(code, verified_via, now)
    }

    /// The identity with id `id`.
    pub fn get_by_id(&self, id: u128) -> (r: Option<AstridUserId>)
        requires
            self.wf(),
        ensures
            r == lookup_identity(self.identity_seq(), id),
    {
        match self.find_identity(id) {
            Some(k) => {
                proof {
                    lemma_identity_index(self.identities@, k as int);
                }
                Some(self.identities[k].duplicate())
            },
            None => None,
        }
    }

    /// The identity that the account `frontend_user_id` on `frontend` is
    /// linked to.
    pub fn resolve(&self, frontend: &FrontendType, frontend_user_id: &str) -> (r: Option<AstridUserId>)
        requires
            self.wf(),
        ensures
            r == resolved(self.identity_seq(), self.link_seq(), *frontend, frontend_user_id@),
    {
        let display = str_to_chars(frontend.to_string().as_str());
        let user = str_to_chars(frontend_user_id);
        match self.find_link(&display, &user) {
            Some(k) => {
                proof {
                    lemma_link_index(self.links@, *frontend, frontend_user_id@, k as int);
                }
                self.get_by_id(self.links[k].astrid_id)
            },
            None => None,
        }
    }
}


/// An identity created for an account is what that account then resolves
/// to.
pub proof fn law_created_identity_resolves(
    old_ids: Seq<AstridUserId>,
    old_links: Seq<FrontendLink>,
    new_ids: Seq<AstridUserId>,
    new_links: Seq<FrontendLink>,
    identity: AstridUserId,
    frontend: FrontendType,
    user: Seq<char>,
    linked_at: i64,
    r: Result<AstridUserId, SecurityError>,
)
    requires
        ids_unique(old_ids),
        links_unique(old_links),
        creation_outcome(old_ids, old_links, new_ids, new_links, identity, frontend, user, linked_at, r),
        r is Ok,
    ensures
        resolved(new_ids, new_links, frontend, user) == Some(identity),
{
    let l = new_links.last();
    assert(new_links =~= old_links.push(l));
    lemma_links_push(old_links, l);
    lemma_link_index(new_links, frontend, user, old_links.len() as int);
    lemma_upsert_identity(old_ids, identity);
}

/// Once entered, a link code is gone: whatever the outcome, it cannot be
/// entered again.
pub proof fn law_link_code_used_once(
    old_codes: Seq<PendingLinkCode>,
    old_links: Seq<FrontendLink>,
    new_codes: Seq<PendingLinkCode>,
    new_links: Seq<FrontendLink>,
    code: Seq<char>,
    verified_via: FrontendType,
    now: i64,
    r: Result<FrontendLink, SecurityError>,
)
    requires
        codes_unique(old_codes),
        verify_outcome(old_codes, old_links, new_codes, new_links, code, verified_via, now, r),
    ensures
        !has_code(new_codes, code),
{
    if has_code(old_codes, code) {
        let k = code_index(old_codes, code);
        lemma_codes_remove(old_codes, k);
    }
}

/// A link code that is entered in time, for an account that is not yet
/// linked, links that account: it then resolves to the identity the code
/// was issued for.
pub proof fn law_entered_code_links_account(
    ids: Seq<AstridUserId>,
    old_codes: Seq<PendingLinkCode>,
    old_links: Seq<FrontendLink>,
    new_codes: Seq<PendingLinkCode>,
    new_links: Seq<FrontendLink>,
    code: Seq<char>,
    verified_via: FrontendType,
    now: i64,
    r: Result<FrontendLink, SecurityError>,
)
    requires
        codes_unique(old_codes),
        links_unique(old_links),
        verify_outcome(old_codes, old_links, new_codes, new_links, code, verified_via, now, r),
        r is Ok,
    ensures
        has_code(old_codes, code),
        resolved(
            ids,
            new_links,
            old_codes[code_index(old_codes, code)].requesting_frontend,
            old_codes[code_index(old_codes, code)].requesting_user_id@,
        ) == lookup_identity(ids, old_codes[code_index(old_codes, code)].astrid_id),
{
    let p = old_codes[code_index(old_codes, code)];
    let l = new_links.last();
    assert(new_links =~= old_links.push(l));
    lemma_links_push(old_links, l);
    lemma_link_index(new_links, p.requesting_frontend, p.requesting_user_id@, old_links.len() as int);
}

/// A link code issued for an account, entered before it expires while the
/// account is still unlinked, links the account to the identity the code
/// was issued for.
pub proof fn law_issued_code_links_account(
    ids: Seq<AstridUserId>,
    codes0: Seq<PendingLinkCode>,
    codes1: Seq<PendingLinkCode>,
    codes2: Seq<PendingLinkCode>,
    links: Seq<FrontendLink>,
    new_links: Seq<FrontendLink>,
    issued: Result<String, SecurityError>,
    astrid_id: u128,
    frontend: FrontendType,
    user: Seq<char>,
    number: u32,
    issued_at: i64,
    code: Seq<char>,
    verified_via: FrontendType,
    entered_at: i64,
    r: Result<FrontendLink, SecurityError>,
)
    requires
        codes_unique(codes0),
        links_unique(links),
        code_issued(codes0, codes1, issued, astrid_id, frontend, user, number, issued_at),
        issued matches Ok(c) && c@ == code,
        !has_link(links, frontend, user),
        entered_at <= code_expiry(issued_at),
        verify_outcome(codes1, links, codes2, new_links, code, verified_via, entered_at, r),
    ensures
        r matches Ok(l) && l.astrid_id == astrid_id,
        resolved(ids, new_links, frontend, user) == lookup_identity(ids, astrid_id),
{
    let p = choose|p: PendingLinkCode|
        #[trigger] is_pending(p, code, astrid_id, frontend, user, code_expiry(issued_at)) && codes1 == upsert_code(
            codes0,
            p,
        );
    lemma_upsert_code(codes0, p);
    let k = if has_code(codes0, code) {
        code_index(codes0, code)
    } else {
        codes0.len() as int
    };
    assert(codes1[k] == p);
    lemma_code_index(codes1, k);
    law_entered_code_links_account(ids, codes1, links, codes2, new_links, code, verified_via, entered_at, r);
}

/// An account whose link is removed no longer resolves.
pub proof fn law_removed_link_does_not_resolve(
    ids: Seq<AstridUserId>,
    links: Seq<FrontendLink>,
    frontend: FrontendType,
    user: Seq<char>,
)
    requires
        links_unique(links),
        has_link(links, frontend, user),
    ensures
        resolved(ids, links.remove(link_index(links, frontend, user)), frontend, user) is None,
{
    let k = link_index(links, frontend, user);
    lemma_links_remove(links, k);
}


/// Linking a platform account a second time is refused: after a creation
/// that linked `user` on `frontend`, a second creation for the same
/// account fails with `FrontendAlreadyLinked`, leaves the identities and
/// links as they were, and the account still resolves to the first
/// identity.
pub proof fn law_duplicate_link_rejected(
    ids0: Seq<AstridUserId>,
    links0: Seq<FrontendLink>,
    ids1: Seq<AstridUserId>,
    links1: Seq<FrontendLink>,
    first: AstridUserId,
    ids2: Seq<AstridUserId>,
    links2: Seq<FrontendLink>,
    second: AstridUserId,
    frontend: FrontendType,
    user: Seq<char>,
    t1: i64,
    t2: i64,
    r1: Result<AstridUserId, SecurityError>,
    r2: Result<AstridUserId, SecurityError>,
)
    requires
        ids_unique(ids0),
        links_unique(links0),
        creation_outcome(ids0, links0, ids1, links1, first, frontend, user, t1, r1),
        r1 is Ok,
        creation_outcome(ids1, links1, ids2, links2, second, frontend, user, t2, r2),
    ensures
        r2 matches Err(SecurityError::FrontendAlreadyLinked { .. }),
        ids2 == ids1,
        links2 == links1,
        resolved(ids2, links2, frontend, user) == Some(first),
{
    law_created_identity_resolves(ids0, links0, ids1, links1, first, frontend, user, t1, r1);
    let k = links0.len() as int;
    assert(links1[k] == links1.last());
    assert(link_is_for(links1[k], frontend, user));
    assert(has_link(links1, frontend, user));
}
} // verus!
