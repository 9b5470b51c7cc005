//! Static group-to-capability configuration.
//!
//! A [`GroupConfig`] holds the built-in groups ([`BUILTIN_ADMIN`],
//! [`BUILTIN_AGENT`], [`BUILTIN_RESTRICTED`]) and any operator-defined
//! custom groups. Built-in groups can never be redefined or removed; every
//! capability of a custom group passes the capability grammar, and the
//! universal `*` is granted by a custom group only when it sets
//! `unsafe_admin`.

use vstd::prelude::*;
use crate::capability_grammar::{
    capability_error_message, is_valid_capability, validate_capability, validation_result,
    CapabilityErrorView, CapabilityGrammarError,
};
use crate::dirs::{join_path, AstridHome};
use crate::string_map::{entries_to_map, keys_unique, StringMap};
use crate::text::{cat, cat3, chars_eq, debug_str, str_debug_form, str_to_chars};

verus! {

/// Canonical name of the built-in administrator group.
pub const BUILTIN_ADMIN: &'static str = "admin";
/// Canonical name of the built-in agent group (self-scoped capabilities).
pub const BUILTIN_AGENT: &'static str = "agent";
/// Canonical name of the built-in restricted group (no capabilities).
pub const BUILTIN_RESTRICTED: &'static str = "restricted";

/// A named set of capability patterns.
#[derive(Debug)]
pub struct Group {
    /// Capability patterns this group confers.
    pub capabilities: Vec<String>,
    /// Human-readable description.
    pub description: Option<String>,
    /// Opt-in flag: custom groups must set this to grant the universal `*`.
    pub unsafe_admin: bool,
}

/// What a [`Group`] holds, with strings taken as characters.
pub ghost struct GroupView {
    pub capabilities: Seq<Seq<char>>,
    pub description: Option<Seq<char>>,
    pub unsafe_admin: bool,
}

pub open spec fn option_view(o: Option<String>) -> Option<Seq<char>> {
    match o {
        Some(s) => Some(s@),
        None => None,
    }
}

pub open spec fn strings_view(v: Seq<String>) -> Seq<Seq<char>> {
    v.map_values(|s: String| s@)
}

impl View for Group {
    type V = GroupView;

    open spec fn view(&self) -> GroupView {
        GroupView {
            capabilities: strings_view(self.capabilities@),
            description: option_view(self.description),
            unsafe_admin: self.unsafe_admin,
        }
    }
}

fn clone_strings(v: &Vec<String>) -> (r: Vec<String>)
    ensures
        strings_view(r@) == strings_view(v@),
{
    let mut r: Vec<String> = Vec::new();
    let mut i: usize = 0;
    while i < v.len()
        invariant
            i <= v@.len(),
            strings_view(r@) == strings_view(v@.take(i as int)),
        decreases v@.len() - i,
    {
        r.push(v[i].clone());
        assert(strings_view(v@.take(i + 1)) =~= strings_view(v@.take(i as int)).push(v@[i as int]@));
        i = i + 1;
    }
    assert(v@.take(v@.len() as int) =~= v@);
    r
}

impl Clone for Group {
    fn clone(&self) -> (r: Self)
        ensures
            r@ == self@,
    {
        let description = match &self.description {
            Some(d) => Some(d.clone()),
            None => None,
        };
        Group {
            capabilities: clone_strings(&self.capabilities),
            description,
            unsafe_admin: self.unsafe_admin,
        }
    }
}

impl Default for Group {
    fn default() -> (r: Self)
        ensures
            r@.capabilities.len() == 0,
            r@.description is None,
            !r@.unsafe_admin,
    {
        Group { capabilities: Vec::new(), description: None, unsafe_admin: false }
    }
}

/// Errors raised when validating or changing a [`GroupConfig`].
#[derive(Debug, Clone, PartialEq, Eq)]
pub enum GroupConfigError {
    /// Reading the groups file failed (the message of the I/O error).
    Io(String),
    /// The groups file failed to parse (the message of the parser).
    Parse(String),
    /// A group entry attempts to redefine a reserved built-in group name.
    RedefinedBuiltin { name: String },
    /// Two different group entries share the same name.
    DuplicateName { name: String },
    /// A group entry contains a capability that fails the grammar.
    InvalidCapability { group: String, cap: String, reason: CapabilityGrammarError },
    /// A custom group grants `*` without opting in to `unsafe_admin`.
    UnsafeUniversalGrant { group: String },
    /// A change targets a group name that does not exist.
    UnknownGroup { name: String },
}

/// The text of each error.
pub open spec fn group_error_message(e: GroupConfigError) -> Seq<char> {
    match e {
        GroupConfigError::Io(m) => "groups config io error: "@ + m@,
        GroupConfigError::Parse(m) => "groups config parse error: "@ + m@,
        GroupConfigError::RedefinedBuiltin { name } => "built-in group "@ + str_debug_form(name@)
            + " may not be redefined in groups.toml"@,
        GroupConfigError::DuplicateName { name } => "groups config declares "@ + str_debug_form(name@)
            + " more than once"@,
        GroupConfigError::InvalidCapability { group, cap, reason } => "groups config: group "@
            + str_debug_form(group@) + " capability "@ + str_debug_form(cap@) + " rejected: "@
            + capability_error_message(reason@),
        GroupConfigError::UnsafeUniversalGrant { group } => "groups config: custom group "@
            + str_debug_form(group@)
            + " grants '*' (universal admin); set `unsafe_admin = true` to confirm this elevation"@,
        GroupConfigError::UnknownGroup { name } => "groups config: unknown group "@ + str_debug_form(
            name@,
        ),
    }
}

impl GroupConfigError {
    /// Human-readable description of the error; names appear quoted.
    pub fn message(&self) -> (r: String)
        ensures
            r@ == group_error_message(*self),
    {
        match self {
            GroupConfigError::Io(m) => cat("groups config io error: ", m.as_str()),
            GroupConfigError::Parse(m) => cat("groups config parse error: ", m.as_str()),
            GroupConfigError::RedefinedBuiltin { name } => cat3(
                "built-in group ",
                debug_str(name.as_str()).as_str(),
                " may not be redefined in groups.toml",
            ),
            GroupConfigError::DuplicateName { name } => cat3(
                "groups config declares ",
                debug_str(name.as_str()).as_str(),
                " more than once",
            ),
            GroupConfigError::InvalidCapability { group, cap, reason } => {
                let mut r = cat3(
                    "groups config: group ",
                    debug_str(group.as_str()).as_str(),
                    " capability ",
                );
                r.append(debug_str(cap.as_str()).as_str());
                r.append(" rejected: ");
                r.append(reason.message().as_str());
                r
            },
            GroupConfigError::UnsafeUniversalGrant { group } => cat3(
                "groups config: custom group ",
                debug_str(group.as_str()).as_str(),
                " grants '*' (universal admin); set `unsafe_admin = true` to confirm this elevation",
            ),
            GroupConfigError::UnknownGroup { name } => cat(
                "groups config: unknown group ",
                debug_str(name.as_str()).as_str(),
            ),
        }
    }
}

/// Result alias for [`GroupConfig`] operations.
pub type GroupConfigResult<T> = Result<T, GroupConfigError>;

/// The names of the built-in groups.
pub open spec fn builtin_names() -> Seq<Seq<char>> {
    seq!["admin"@, "agent"@, "restricted"@]
}

/// `name` is one of the built-in group names.
pub open spec fn is_builtin_spec(name: Seq<char>) -> bool {
    name == "admin"@ || name == "agent"@ || name == "restricted"@
}

/// The definition of each built-in group.
pub open spec fn builtin_group(name: Seq<char>) -> GroupView {
    if name == "admin"@ {
        GroupView {
            capabilities: seq!["*"@],
            description: Some("Built-in administrator — universal capability grant"@),
            unsafe_admin: false,
        }
    } else if name == "agent"@ {
        GroupView {
            capabilities: seq!["self:*"@, "self:quota:get"@, "self:agent:list"@, "delegate:self:*"@],
            description: Some(
                "Built-in agent — self-scoped capability grants for routine agent workflows"@,
            ),
            unsafe_admin: false,
        }
    } else {
        GroupView {
            capabilities: Seq::empty(),
            description: Some(
                "Built-in restricted — no implicit capabilities; grants must be explicit"@,
            ),
            unsafe_admin: false,
        }
    }
}

/// Index of the first capability of a custom group that fails: by the
/// grammar, or by granting `*` without `unsafe_admin`. `caps.len()` when
/// none fails.
pub open spec fn first_bad_capability(caps: Seq<Seq<char>>, unsafe_admin: bool) -> int
    decreases caps.len(),
{
    if caps.len() == 0 {
        0
    } else if !is_valid_capability(caps[0]) || (caps[0] == "*"@ && !unsafe_admin) {
        0
    } else {
        1 + first_bad_capability(caps.drop_first(), unsafe_admin)
    }
}

/// A custom group that may stand in a config.
pub open spec fn is_valid_custom_group(g: GroupView) -> bool {
    forall|i: int|
        0 <= i < g.capabilities.len() ==> is_valid_capability(#[trigger] g.capabilities[i]) && (
        g.capabilities[i] == "*"@ ==> g.unsafe_admin)
}

/// The error `validate_custom_group` gives for capability `cap` of group
/// `name`.
pub open spec fn capability_error_matches(
    e: GroupConfigError,
    name: Seq<char>,
    cap: Seq<char>,
    unsafe_admin: bool,
) -> bool {
    match e {
        GroupConfigError::InvalidCapability { group, cap: c, reason } => group@ == name && c@ == cap
            && validation_result(cap) == Err::<(), CapabilityErrorView>(reason@),
        GroupConfigError::UnsafeUniversalGrant { group } => group@ == name && is_valid_capability(
            cap,
        ) && cap == "*"@ && !unsafe_admin,
        _ => false,
    }
}

proof fn lemma_first_bad_capability(caps: Seq<Seq<char>>, unsafe_admin: bool)
    ensures
        0 <= first_bad_capability(caps, unsafe_admin) <= caps.len(),
        forall|i: int|
            0 <= i < first_bad_capability(caps, unsafe_admin) ==> is_valid_capability(
                #[trigger] caps[i],
            ) && (caps[i] == "*"@ ==> unsafe_admin),
        first_bad_capability(caps, unsafe_admin) < caps.len() ==> {
            let c = caps[first_bad_capability(caps, unsafe_admin)];
            !is_valid_capability(c) || (c == "*"@ && !unsafe_admin)
        },
    decreases caps.len(),
{
    if caps.len() > 0 && is_valid_capability(caps[0]) && !(caps[0] == "*"@ && !unsafe_admin) {
        lemma_first_bad_capability(caps.drop_first(), unsafe_admin);
        assert forall|i: int| 0 <= i < first_bad_capability(caps, unsafe_admin) implies is_valid_capability(
            #[trigger] caps[i],
        ) && (caps[i] == "*"@ ==> unsafe_admin) by {
            if i > 0 {
                assert(caps[i] == caps.drop_first()[i - 1]);
            }
        }
    }
}

/// Check every capability of a custom group, in order.
pub fn validate_custom_group(name: &str, group: &Group) -> (r: GroupConfigResult<()>)
    ensures
        r is Ok <==> is_valid_custom_group(group@),
        match r {
            Ok(()) => true,
            Err(e) => first_bad_capability(group@.capabilities, group.unsafe_admin)
                < group@.capabilities.len() && capability_error_matches(
                e,
                name@,
                group@.capabilities[first_bad_capability(group@.capabilities, group.unsafe_admin)],
                group.unsafe_admin,
            ),
        },
{
    let ghost caps = group@.capabilities;
    proof {
        lemma_first_bad_capability(caps, group.unsafe_admin);
    }
    let star = str_to_chars("*");
    let mut i: usize = 0;
    while i < group.capabilities.len()
        invariant
            i <= group.capabilities@.len(),
            caps == group@.capabilities,
            caps.len() == group.capabilities@.len(),
            star@ == "*"@,
            forall|j: int|
                0 <= j < i ==> is_valid_capability(#[trigger] caps[j]) && (caps[j] == "*"@
                    ==> group.unsafe_admin),
            0 <= first_bad_capability(caps, group.unsafe_admin) <= caps.len(),
            forall|j: int|
                0 <= j < first_bad_capability(caps, group.unsafe_admin) ==> is_valid_capability(
                    #[trigger] caps[j],
                ) && (caps[j] == "*"@ ==> group.unsafe_admin),
            first_bad_capability(caps, group.unsafe_admin) < caps.len() ==> {
                let c = caps[first_bad_capability(caps, group.unsafe_admin)];
                !is_valid_capability(c) || (c == "*"@ && !group.unsafe_admin)
            },
        decreases group.capabilities@.len() - i,
    {
        let cap = &group.capabilities[i];
        assert(caps[i as int] == cap@);
        match validate_capability(cap.as_str()) {
            Err(reason) => {
                assert(first_bad_capability(caps, group.unsafe_admin) == i);
                return Err(
                    GroupConfigError::InvalidCapability {
                        group: String::from_str(name),
                        cap: cap.clone(),
                        reason,
                    },
                );
            },
            Ok(()) => {},
        }
        if chars_eq(&str_to_chars(cap.as_str()), &star) && !group.unsafe_admin {
            assert(first_bad_capability(caps, group.unsafe_admin) == i);
            return Err(GroupConfigError::UnsafeUniversalGrant { group: String::from_str(name) });
        }
        i = i + 1;
    }
    Ok(())
}

/// Whether `name` is one of the reserved built-in group names.
pub fn is_builtin(name: &str) -> (r: bool)
    ensures
        r == is_builtin_spec(name@),
{
    let n = str_to_chars(name);
    chars_eq(&n, &str_to_chars(BUILTIN_ADMIN)) || chars_eq(&n, &str_to_chars(BUILTIN_AGENT))
        || chars_eq(&n, &str_to_chars(BUILTIN_RESTRICTED))
}

fn strings(v: Vec<&'static str>) -> (r: Vec<String>)
    ensures
        strings_view(r@) == v@.map_values(|s: &str| s@),
{
    let mut r: Vec<String> = Vec::new();
    let mut i: usize = 0;
    while i < v.len()
        invariant
            i <= v@.len(),
            strings_view(r@) == v@.take(i as int).map_values(|s: &str| s@),
        decreases v@.len() - i,
    {
        r.push(String::from_str(v[i]));
        assert(v@.take(i + 1).map_values(|s: &str| s@) =~= v@.take(i as int).map_values(
            |s: &str| s@,
        ).push(v@[i as int]@));
        i = i + 1;
    }
    assert(v@.take(v@.len() as int) =~= v@);
    r
}

/// The built-in groups, in the order admin, agent, restricted.
pub fn builtin_entries() -> (r: Vec<(String, Group)>)
    ensures
        r@.len() == 3,
        forall|i: int| 0 <= i < 3 ==> (#[trigger] r@[i]).0@ == builtin_names()[i],
        forall|i: int| 0 <= i < 3 ==> (#[trigger] r@[i]).1@ == builtin_group(builtin_names()[i]),
{
    let admin = Group {
        capabilities: strings(vec!["*"]),
        description: Some(String::from_str("Built-in administrator — universal capability grant")),
        unsafe_admin: false,
    };
    let agent = Group {
        capabilities: strings(vec!["self:*", "self:quota:get", "self:agent:list", "delegate:self:*"]),
        description: Some(
            String::from_str(
                "Built-in agent — self-scoped capability grants for routine agent workflows",
            ),
        ),
        unsafe_admin: false,
    };
    let restricted = Group {
        capabilities: Vec::new(),
        description: Some(
            String::from_str(
                "Built-in restricted — no implicit capabilities; grants must be explicit",
            ),
        ),
        unsafe_admin: false,
    };
    proof {
        reveal_strlit("admin");
        reveal_strlit("agent");
        reveal_strlit("restricted");
        assert("agent"@[1] != "admin"@[1]);
        assert("restricted"@.len() != "admin"@.len());
        assert("restricted"@.len() != "agent"@.len());
    }
    assert(admin@.capabilities =~= seq!["*"@]);
    assert(agent@.capabilities =~= seq!["self:*"@, "self:quota:get"@, "self:agent:list"@, "delegate:self:*"@]);
    assert(restricted@.capabilities =~= Seq::<Seq<char>>::empty());
    let ghost av = admin@;
    let ghost gv = agent@;
    let ghost rv = restricted@;
    assert(av == builtin_group("admin"@));
    assert(gv == builtin_group("agent"@));
    assert(rv == builtin_group("restricted"@));
    let mut r: Vec<(String, Group)> = Vec::new();
    r.push((String::from_str(BUILTIN_ADMIN), admin));
    r.push((String::from_str(BUILTIN_AGENT), agent));
    r.push((String::from_str(BUILTIN_RESTRICTED), restricted));
    assert(r@[0].1@ == av && r@[1].1@ == gv && r@[2].1@ == rv);
    r
}

/// The built-in groups as a map.
pub open spec fn builtins_map() -> Map<Seq<char>, GroupView> {
    Map::new(|k: Seq<char>| is_builtin_spec(k), |k: Seq<char>| builtin_group(k))
}

/// A group map that holds every built-in group, unchanged, and otherwise
/// only valid custom groups.
pub open spec fn wf_groups(m: Map<Seq<char>, GroupView>) -> bool {
    &&& forall|n: Seq<char>|
        is_builtin_spec(n) ==> #[trigger] m.dom().contains(n) && m[n] == builtin_group(n)
    &&& forall|k: Seq<char>|
        #[trigger] m.dom().contains(k) && !is_builtin_spec(k) ==> is_valid_custom_group(m[k])
}

/// The built-in groups from position `lo` of [`builtin_names`] on.
pub open spec fn builtin_tail(lo: int) -> Map<Seq<char>, GroupView> {
    Map::new(
        |k: Seq<char>| exists|j: int| lo <= j < 3 && #[trigger] builtin_names()[j] == k,
        |k: Seq<char>| builtin_group(k),
    )
}

proof fn lemma_builtin_tail_step(n: int)
    requires
        0 <= n < 3,
    ensures
        builtin_tail(n) == builtin_tail(n + 1).insert(builtin_names()[n], builtin_group(builtin_names()[n])),
{
    let a = builtin_tail(n);
    let b = builtin_tail(n + 1).insert(builtin_names()[n], builtin_group(builtin_names()[n]));
    assert forall|k: Seq<char>| #[trigger] a.dom().contains(k) == b.dom().contains(k) by {
        if a.dom().contains(k) {
            let j = choose|j: int| n <= j < 3 && #[trigger] builtin_names()[j] == k;
            if j != n {
                assert(builtin_tail(n + 1).dom().contains(k));
            }
        }
        if builtin_tail(n + 1).dom().contains(k) {
            let j = choose|j: int| n + 1 <= j < 3 && #[trigger] builtin_names()[j] == k;
            assert(n <= j < 3 && builtin_names()[j] == k);
        }
        if k == builtin_names()[n] {
            assert(n <= n < 3 && builtin_names()[n] == k);
        }
    }
    assert(a =~= b);
}

proof fn lemma_builtin_tail_all()
    ensures
        builtin_tail(0) == builtins_map(),
{
    reveal_strlit("admin");
    reveal_strlit("agent");
    reveal_strlit("restricted");
    let a = builtin_tail(0);
    let b = builtins_map();
    assert forall|k: Seq<char>| #[trigger] a.dom().contains(k) == b.dom().contains(k) by {
        if k == "admin"@ {
            assert(builtin_names()[0] == k);
        }
        if k == "agent"@ {
            assert(builtin_names()[1] == k);
        }
        if k == "restricted"@ {
            assert(builtin_names()[2] == k);
        }
    }
    assert(a =~= b);
}

/// The groups of a map of `Group` values, by view.
pub open spec fn groups_view(m: Map<Seq<char>, Group>) -> Map<Seq<char>, GroupView> {
    m.map_values(|g: Group| g@)
}

/// A copy of a group map.
fn copy_groups(m: &StringMap<Group>) -> (r: StringMap<Group>)
    ensures
        groups_view(r.view()) == groups_view(m.view()),
{
    m.view_facts();
    let r = m.clone();
    r.view_facts();
    proof {
        let ms = m.entry_seq();
        let rs = r.entry_seq();
        crate::string_map::lemma_entries_to_map(ms);
        crate::string_map::lemma_entries_to_map(rs);
        assert forall|k: Seq<char>| #[trigger] r.view().dom().contains(k) == m.view().dom().contains(k) by {
            if r.view().dom().contains(k) {
                let i = choose|i: int| 0 <= i < rs.len() && rs[i].0@ == k;
                assert(rs[i].0 == ms[i].0);
            }
            if m.view().dom().contains(k) {
                let i = choose|i: int| 0 <= i < ms.len() && ms[i].0@ == k;
                assert(rs[i].0 == ms[i].0);
            }
        }
        assert forall|k: Seq<char>| #[trigger] r.view().dom().contains(k) implies r.view()[k]@ == m.view()[k]@ by {
            let i = choose|i: int| 0 <= i < rs.len() && rs[i].0@ == k;
            assert(rs[i].0 == ms[i].0);
            assert(cloned::<Group>(ms[i].1, rs[i].1));
            assert(r.view()[k] == rs[i].1);
            assert(m.view()[k] == ms[i].1);
        }
        assert(groups_view(r.view()) =~= groups_view(m.view()));
    }
    r
}

/// The entries whose names are not built-in, in order.
pub open spec fn custom_only(s: Seq<(String, Group)>) -> Seq<(String, Group)>
    decreases s.len(),
{
    if s.len() == 0 {
        Seq::empty()
    } else if is_builtin_spec(s.last().0@) {
        custom_only(s.drop_last())
    } else {
        custom_only(s.drop_last()).push(s.last())
    }
}

/// The frozen group-to-capability map: built-in groups merged with any
/// operator-provided custom groups.
#[derive(Debug)]
pub struct GroupConfig {
    groups: StringMap<Group>,
}

impl GroupConfig {
    #[verifier::type_invariant]
    closed spec fn keeps_builtins(self) -> bool {
        wf_groups(groups_view(self.groups.view()))
    }

    /// The `(name, group)` entries, in insertion order.
    pub closed spec fn entries_seq(&self) -> Seq<(String, Group)> {
        self.groups.entry_seq()
    }

    /// Group name → group definition.
    pub closed spec fn view(&self) -> Map<Seq<char>, GroupView> {
        groups_view(self.groups.view())
    }

    /// Every config holds the three built-in groups, unchanged, and only
    /// valid custom groups.
    pub fn holds_builtins(&self)
        ensures
            wf_groups(self.view()),
            self.view().dom().finite(),
    {
        proof {
            use_type_invariant(self);
        }
        self.groups.view_facts();
        assert(self.view().dom() =~= self.groups.view().dom());
    }

    /// Canonical on-disk path of the system-wide groups config
    /// (`etc/groups.toml`).
    pub fn path_for(home: &AstridHome) -> (r: String)
        ensures
            r@ == join_path(join_path(home.root_spec(), "etc"@), "groups.toml"@),
    {
        crate::dirs::join(home.etc_dir().as_str(), "groups.toml")
    }

    /// A config holding only the built-in groups.
    pub fn builtin_only() -> (r: Self)
        ensures
            r.view() == builtins_map(),
    {
        let mut entries = builtin_entries();
        let mut groups: StringMap<Group> = StringMap::new();
        let ghost orig = entries@;
        assert(groups_view(groups.view()) =~= builtin_tail(3));
        while entries.len() > 0
            invariant
                orig.len() == 3,
                entries@.len() <= 3,
                entries@ == orig.subrange(0, entries@.len() as int),
                forall|i: int| 0 <= i < 3 ==> (#[trigger] orig[i]).0@ == builtin_names()[i],
                forall|i: int| 0 <= i < 3 ==> (#[trigger] orig[i]).1@ == builtin_group(builtin_names()[i]),
                groups_view(groups.view()) == builtin_tail(entries@.len() as int),
            decreases entries@.len(),
        {
            let ghost n = entries@.len() - 1;
            let (name, group) = entries.pop().unwrap();
            assert(orig[n].0@ == name@);
            let ghost gv = group@;
            groups.insert(name, group);
            proof {
                lemma_builtin_tail_step(n);
            }
            assert(groups_view(groups.view()) =~= builtin_tail(n));
            assert(entries@ =~= orig.subrange(0, entries@.len() as int));
        }
        let r = GroupConfig { groups };
        proof {
            lemma_builtin_tail_all();
        }
        r
    }

    /// Merge operator-defined custom groups with the built-ins. Refused
    /// when an entry redefines a built-in name (the first such entry is
    /// reported), when two entries share a name (the later one is
    /// reported), or when a group fails validation (the first such group
    /// is reported).
    pub fn from_custom_groups(custom: Vec<(String, Group)>) -> (r: GroupConfigResult<Self>)
        ensures
            match r {
                Ok(c) => (forall|i: int|
                    0 <= i < custom@.len() ==> !is_builtin_spec(#[trigger] custom@[i].0@))
                    && keys_unique(custom@) && (forall|i: int|
                    0 <= i < custom@.len() ==> is_valid_custom_group(#[trigger] custom@[i].1@))
                    && c.view() == builtins_map().union_prefer_right(
                    groups_view(entries_to_map(custom@)),
                ),
                Err(GroupConfigError::RedefinedBuiltin { name }) => exists|i: int|
                    0 <= i < custom@.len() && is_builtin_spec(#[trigger] custom@[i].0@) && name@
                        == custom@[i].0@,
                Err(GroupConfigError::DuplicateName { name }) => (forall|i: int|
                    0 <= i < custom@.len() ==> !is_builtin_spec(#[trigger] custom@[i].0@))
                    && exists|i: int, j: int|
                    0 <= i < j < custom@.len() && #[trigger] custom@[i].0@ == #[trigger] custom@[j].0@
                        && name@ == custom@[j].0@,
                Err(e) => (forall|i: int|
                    0 <= i < custom@.len() ==> !is_builtin_spec(#[trigger] custom@[i].0@))
                    && keys_unique(custom@) && exists|i: int|
                    0 <= i < custom@.len() && !is_valid_custom_group(#[trigger] custom@[i].1@)
                        && capability_error_matches(
                        e,
                        custom@[i].0@,
                        custom@[i].1@.capabilities[first_bad_capability(
                            custom@[i].1@.capabilities,
                            custom@[i].1.unsafe_admin,
                        )],
                        custom@[i].1.unsafe_admin,
                    ),
            },
    {
        let n = custom.len();
        let mut i: usize = 0;
        while i < n
            invariant
                n == custom@.len(),
                i <= n,
                forall|j: int| 0 <= j < i ==> !is_builtin_spec(#[trigger] custom@[j].0@),
            decreases n - i,
        {
            if is_builtin(custom[i].0.as_str()) {
                return Err(GroupConfigError::RedefinedBuiltin { name: custom[i].0.clone() });
            }
            i = i + 1;
        }
        let mut j: usize = 0;
        while j < n
            invariant
                n == custom@.len(),
                j <= n,
                forall|a: int| 0 <= a < n ==> !is_builtin_spec(#[trigger] custom@[a].0@),
                forall|a: int, b: int| 0 <= a < b < j ==> #[trigger] custom@[a].0@ != #[trigger] custom@[b].0@,
            decreases n - j,
        {
            let mut k: usize = 0;
            let cj = str_to_chars(custom[j].0.as_str());
            while k < j
                invariant
                    n == custom@.len(),
                    k <= j < n,
                    forall|a: int| 0 <= a < n ==> !is_builtin_spec(#[trigger] custom@[a].0@),
                    cj@ == custom@[j as int].0@,
                    forall|a: int| 0 <= a < k ==> custom@[a].0@ != custom@[j as int].0@,
                decreases j - k,
            {
                if chars_eq(&str_to_chars(custom[k].0.as_str()), &cj) {
                    assert(custom@[k as int].0@ == custom@[j as int].0@);
                    return Err(GroupConfigError::DuplicateName { name: custom[j].0.clone() });
                }
                k = k + 1;
            }
            j = j + 1;
        }
        let mut v: usize = 0;
        while v < n
            invariant
                n == custom@.len(),
                v <= n,
                forall|a: int| 0 <= a < n ==> !is_builtin_spec(#[trigger] custom@[a].0@),
                keys_unique(custom@),
                forall|a: int| 0 <= a < v ==> is_valid_custom_group(#[trigger] custom@[a].1@),
            decreases n - v,
        {
            match validate_custom_group(custom[v].0.as_str(), &custom[v].1) {
                Err(e) => {
                    return Err(e);
                },
                Ok(()) => {},
            }
            v = v + 1;
        }
        let base = GroupConfig::builtin_only();
        let mut groups = copy_groups(&base.groups);
        let mut m: usize = 0;
        assert(custom@.take(0) =~= Seq::<(String, Group)>::empty());
        assert(builtins_map().union_prefer_right(groups_view(entries_to_map(custom@.take(0))))
            =~= builtins_map());
        while m < n
            invariant
                n == custom@.len(),
                m <= n,
                groups_view(groups.view()) == builtins_map().union_prefer_right(
                    groups_view(entries_to_map(custom@.take(m as int))),
                ),
            decreases n - m,
        {
            let g = custom[m].1.clone();
            let name = custom[m].0.clone();
            let ghost before = groups_view(entries_to_map(custom@.take(m as int)));
            let ghost gbefore = groups_view(groups.view());
            let ghost gv = g@;
            let ghost nv = name@;
            assert(gv == custom@[m as int].1@);
            assert(nv == custom@[m as int].0@);
            groups.insert(name, g);
            assert(groups_view(groups.view()) =~= gbefore.insert(nv, gv));
            assert(custom@.take(m + 1).drop_last() =~= custom@.take(m as int));
            assert(groups_view(entries_to_map(custom@.take(m + 1))) =~= before.insert(
                custom@[m as int].0@,
                custom@[m as int].1@,
            ));
            assert(groups_view(groups.view()) =~= builtins_map().union_prefer_right(
                groups_view(entries_to_map(custom@.take(m + 1))),
            ));
            m = m + 1;
        }
        assert(custom@.take(n as int) =~= custom@);
        proof {
            crate::string_map::lemma_entries_to_map(custom@);
            let cm = entries_to_map(custom@);
            let all = groups_view(groups.view());
            assert forall|k: Seq<char>| #[trigger] all.dom().contains(k) && !is_builtin_spec(k)
                implies is_valid_custom_group(all[k]) by {
                assert(cm.dom().contains(k));
                let i = choose|i: int| 0 <= i < custom@.len() && custom@[i].0@ == k;
                assert(cm[custom@[i].0@] == custom@[i].1);
            }
            assert forall|k: Seq<char>| is_builtin_spec(k) implies #[trigger] all.dom().contains(k)
                && all[k] == builtin_group(k) by {
                if cm.dom().contains(k) {
                    let i = choose|i: int| 0 <= i < custom@.len() && custom@[i].0@ == k;
                    assert(!is_builtin_spec(custom@[i].0@));
                }
            }
        }
        Ok(GroupConfig { groups })
    }

    /// Look up a group by name.
    pub fn get(&self, name: &str) -> (r: Option<&Group>)
        ensures
            match r {
                Some(g) => self.view().dom().contains(name@) && g@ == self.view()[name@],
                None => !self.view().dom().contains(name@),
            },
    {
        self.groups.get(name)
    }

    /// Number of groups (built-ins and custom).
    pub fn len(&self) -> (r: usize)
        ensures
            r == self.view().dom().len(),
    {
        proof {
            assert(self.view().dom() =~= self.groups.view().dom());
        }
        self.groups.len()
    }

    /// Whether the config holds no group; never the case, since the
    /// built-ins are always present.
    pub fn is_empty(&self) -> (r: bool)
        ensures
            r == (self.view().dom().len() == 0),
            !r,
    {
        self.holds_builtins();
        proof {
            assert(self.view().dom().contains("admin"@));
            vstd::set_lib::lemma_set_empty_equivalency_len(self.view().dom());
        }
        self.len() == 0
    }

    /// The `(name, group)` entries, in insertion order (built-ins first).
    pub fn iter(&self) -> (r: &[(String, Group)])
        ensures
            self.view() == groups_view(entries_to_map(r@)),
            keys_unique(r@),
            r@ == self.entries_seq(),
    {
        self.groups.view_facts();
        self.groups.entries()
    }

    /// The custom groups, in order, without the built-ins: what is saved to
    /// the groups file.
    pub fn custom_entries(&self) -> (r: Vec<&(String, Group)>)
        ensures
            r@.map_values(|e: &(String, Group)| *e) == custom_only(self.entries_seq()),
    {
        let entries = self.groups.entries();
        let mut r: Vec<&(String, Group)> = Vec::new();
        let mut i: usize = 0;
        while i < entries.len()
            invariant
                i <= entries@.len(),
                entries@ == self.groups.entry_seq(),
                r@.map_values(|e: &(String, Group)| *e) == custom_only(entries@.take(i as int)),
            decreases entries@.len() - i,
        {
            assert(entries@.take(i + 1).drop_last() =~= entries@.take(i as int));
            if !is_builtin(entries[i].0.as_str()) {
                r.push(&entries[i]);
            }
            i = i + 1;
            assert(r@.map_values(|e: &(String, Group)| *e) =~= custom_only(entries@.take(i as int)));
        }
        assert(entries@.take(i as int) =~= entries@);
        r
    }

    /// Whether `name` is one of the reserved built-in group names.
    pub fn is_builtin_name(name: &str) -> (r: bool)
        ensures
            r == is_builtin_spec(name@),
    {
        is_builtin(name)
    }

    /// A new config with a custom group added. Refused when `name` is a
    /// built-in name, when it is already present, or when the group fails
    /// validation; `self` is left as it was.
    pub fn insert_custom_group(&self, name: String, group: Group) -> (r: GroupConfigResult<Self>)
        ensures
            match r {
                Ok(c) => !is_builtin_spec(name@) && !self.view().dom().contains(name@)
                    && is_valid_custom_group(group@) && c.view() == self.view().insert(
                    name@,
                    group@,
                ),
                Err(GroupConfigError::RedefinedBuiltin { name: n }) => is_builtin_spec(name@) && n@
                    == name@,
                Err(GroupConfigError::DuplicateName { name: n }) => !is_builtin_spec(name@)
                    && self.view().dom().contains(name@) && n@ == name@,
                Err(e) => !is_builtin_spec(name@) && !self.view().dom().contains(name@)
                    && !is_valid_custom_group(group@) && capability_error_matches(
                    e,
                    name@,
                    group@.capabilities[first_bad_capability(group@.capabilities, group.unsafe_admin)],
                    group.unsafe_admin,
                ),
            },
    {
        proof {
            use_type_invariant(self);
        }
        if is_builtin(name.as_str()) {
            return Err(GroupConfigError::RedefinedBuiltin { name });
        }
        if self.groups.contains_key(name.as_str()) {
            return Err(GroupConfigError::DuplicateName { name });
        }
        match validate_custom_group(name.as_str(), &group) {
            Err(e) => return Err(e),
            Ok(()) => {},
        }
        let mut next = copy_groups(&self.groups);
        let ghost gv = group@;
        next.insert(name, group);
        assert(groups_view(next.view()) =~= self.view().insert(name@, gv));
        Ok(GroupConfig { groups: next })
    }

    /// A new config with a partial update applied to a custom group: each
    /// field given as `Some` replaces the stored one. Refused for built-in
    /// names, unknown names, and when the updated group fails validation.
    pub fn modify_custom_group(
        &self,
        name: &str,
        capabilities: Option<Vec<String>>,
        description: Option<Option<String>>,
        unsafe_admin: Option<bool>,
    ) -> (r: GroupConfigResult<Self>)
        ensures
            match r {
                Ok(c) => !is_builtin_spec(name@) && self.view().dom().contains(name@) && {
                    let old = self.view()[name@];
                    let updated = GroupView {
                        capabilities: match capabilities {
                            Some(v) => strings_view(v@),
                            None => old.capabilities,
                        },
                        description: match description {
                            Some(d) => option_view(d),
                            None => old.description,
                        },
                        unsafe_admin: match unsafe_admin {
                            Some(b) => b,
                            None => old.unsafe_admin,
                        },
                    };
                    is_valid_custom_group(updated) && c.view() == self.view().insert(name@, updated)
                },
                Err(GroupConfigError::RedefinedBuiltin { name: n }) => is_builtin_spec(name@) && n@
                    == name@,
                Err(GroupConfigError::UnknownGroup { name: n }) => !is_builtin_spec(name@)
                    && !self.view().dom().contains(name@) && n@ == name@,
                Err(e) => !is_builtin_spec(name@) && self.view().dom().contains(name@) && {
                    let old = self.view()[name@];
                    let updated = GroupView {
                        capabilities: match capabilities {
                            Some(v) => strings_view(v@),
                            None => old.capabilities,
                        },
                        description: match description {
                            Some(d) => option_view(d),
                            None => old.description,
                        },
                        unsafe_admin: match unsafe_admin {
                            Some(b) => b,
                            None => old.unsafe_admin,
                        },
                    };
                    !is_valid_custom_group(updated) && capability_error_matches(
                        e,
                        name@,
                        updated.capabilities[first_bad_capability(
                            updated.capabilities,
                            updated.unsafe_admin,
                        )],
                        updated.unsafe_admin,
                    )
                },
            },
    {
        proof {
            use_type_invariant(self);
        }
        if is_builtin(name) {
            return Err(GroupConfigError::RedefinedBuiltin { name: String::from_str(name) });
        }
        let existing = match self.groups.get(name) {
            Some(g) => g,
            None => return Err(GroupConfigError::UnknownGroup { name: String::from_str(name) }),
        };
        let mut updated = existing.clone();
        match capabilities {
            Some(caps) => {
                updated.capabilities = caps;
            },
            None => {},
        }
        match description {
            Some(desc) => {
                updated.description = desc;
            },
            None => {},
        }
        match unsafe_admin {
            Some(flag) => {
                updated.unsafe_admin = flag;
            },
            None => {},
        }
        match validate_custom_group(name, &updated) {
            Err(e) => return Err(e),
            Ok(()) => {},
        }
        let mut next = copy_groups(&self.groups);
        let ghost uv = updated@;
        next.insert(String::from_str(name), updated);
        assert(groups_view(next.view()) =~= self.view().insert(name@, uv));
        Ok(GroupConfig { groups: next })
    }

    /// A new config with the custom group `name` removed. Built-in groups
    /// cannot be removed; an unknown name is refused.
    pub fn remove_group(&self, name: &str) -> (r: GroupConfigResult<Self>)
        ensures
            match r {
                Ok(c) => !is_builtin_spec(name@) && self.view().dom().contains(name@) && c.view()
                    == self.view().remove(name@),
                Err(GroupConfigError::RedefinedBuiltin { name: n }) => is_builtin_spec(name@) && n@
                    == name@,
                Err(GroupConfigError::UnknownGroup { name: n }) => !is_builtin_spec(name@)
                    && !self.view().dom().contains(name@) && n@ == name@,
                Err(_) => false,
            },
    {
        proof {
            use_type_invariant(self);
        }
        if is_builtin(name) {
            return Err(GroupConfigError::RedefinedBuiltin { name: String::from_str(name) });
        }
        if !self.groups.contains_key(name) {
            return Err(GroupConfigError::UnknownGroup { name: String::from_str(name) });
        }
        let mut next = copy_groups(&self.groups);
        next.remove(name);
        assert(groups_view(next.view()) =~= self.view().remove(name@));
        Ok(GroupConfig { groups: next })
    }
}

impl Default for GroupConfig {
    fn default() -> (r: Self)
        ensures
            r.view() == builtins_map(),
    {
        GroupConfig::builtin_only()
    }
}

} // verus!
