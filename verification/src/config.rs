//! User space configuration files (the standard MCP `mcpServers` format) and
//! their conversion into server definitions.

use vstd::prelude::*;

use crate::feature::copy_opt;
use crate::pattern::{captures_group1, regex_group1_matches};
use crate::server::{
    input_views, transport_metadata, AuthConfig, HostingType, InputDefinition, InputSpec,
    PublisherInfo, ServerDefinition, ServerIcon, ServerSource, TransportConfig,
    TransportMetadata,
};
use crate::text::{
    all_ascii, ascii_alphanumeric, ascii_lower, ascii_lower_seq, char_alphanumeric, chars_equal, chars_of, copy_pairs, copy_strings,
    is_alphanumeric, lower_char, owned, push_char, to_lowercase, unicode_lowercase, views,
};
use crate::uri::opt_view;

verus! {

/// Placeholders `${input:ID}` in a transport name an input by its ID.
pub const INPUT_PATTERN: &'static str = "\\$\\{input:([A-Z_][A-Z0-9_]*)\\}";

/// A user space configuration file: server entries by ID, in file order.
#[derive(Debug)]
pub struct UserSpaceConfig {
    /// The `mcpServers` entries as (ID, entry) pairs
    pub servers: Vec<(String, UserServerEntry)>,
}

/// One server entry of a user space configuration, in the standard MCP
/// format: transport fields (command/args/env or url/headers) at the top
/// level. Environment variables and headers are ordered (name, value) pairs.
#[derive(Debug)]
pub struct UserServerEntry {
    /// Command of a stdio server
    pub command: Option<String>,
    /// Arguments of a stdio server
    pub args: Option<Vec<String>>,
    /// Environment of a stdio server
    pub env: Option<Vec<(String, String)>>,
    /// URL of an HTTP server
    pub url: Option<String>,
    /// Headers of an HTTP server
    pub headers: Option<Vec<(String, String)>>,
    /// Display name
    pub name: Option<String>,
    /// Description
    pub description: Option<String>,
    /// Icon
    pub icon: Option<ServerIcon>,
    /// Alias for tool prefixing
    pub alias: Option<String>,
    /// Authentication
    pub auth: Option<AuthConfig>,
    /// Optional metadata block with input definitions
    pub metadata: Option<UserServerMetadata>,
}

/// The metadata block of a user server entry.
#[derive(Debug)]
pub struct UserServerMetadata {
    /// Explicit input definitions
    pub inputs: Option<Vec<InputDefinition>>,
    /// Publisher override
    pub publisher: Option<PublisherInfo>,
}

/// A server ID made fit for tool prefixes: alphanumeric characters, ASCII
/// lowercased, and hyphens and dots are kept; everything else is dropped.
pub open spec fn normalized_id(s: Seq<char>) -> Seq<char>
    decreases s.len(),
{
    if s.len() == 0 {
        seq![]
    } else {
        let r = normalized_id(s.drop_last());
        let c = s.last();
        if char_alphanumeric(c) {
            r.push(ascii_lower(c))
        } else if c == '-' || c == '.' {
            r.push(c)
        } else {
            r
        }
    }
}

/// `normalized_id` on ASCII text: ASCII letters (lowercased) and digits,
/// hyphens and dots are kept; everything else is dropped.
pub open spec fn normalized_ascii_id(s: Seq<char>) -> Seq<char>
    decreases s.len(),
{
    if s.len() == 0 {
        seq![]
    } else {
        let r = normalized_ascii_id(s.drop_last());
        let c = s.last();
        if ascii_alphanumeric(c) {
            r.push(ascii_lower(c))
        } else if c == '-' || c == '.' {
            r.push(c)
        } else {
            r
        }
    }
}

/// An alias made underscore-free: underscores become hyphens and the rest
/// is ASCII lowercased.
pub open spec fn normalized_alias(s: Seq<char>) -> Seq<char> {
    Seq::new(s.len(), |i: int| if s[i] == '_' { '-' } else { ascii_lower(s[i]) })
}

/// The IDs of the capture groups that took part, in order.
pub open spec fn present_ids(gs: Seq<Option<Seq<char>>>) -> Seq<Seq<char>>
    decreases gs.len(),
{
    if gs.len() == 0 {
        seq![]
    } else {
        let r = present_ids(gs.drop_last());
        match gs.last() {
            Some(x) => r.push(x),
            None => r,
        }
    }
}

/// The input IDs named by `${input:ID}` placeholders in `s`, in order.
pub open spec fn placeholders(s: Seq<char>) -> Seq<Seq<char>> {
    match regex_group1_matches(INPUT_PATTERN@, s) {
        Some(gs) => present_ids(gs),
        None => seq![],
    }
}

/// The placeholders of each string in turn.
pub open spec fn placeholders_all(ss: Seq<Seq<char>>) -> Seq<Seq<char>>
    decreases ss.len(),
{
    if ss.len() == 0 {
        seq![]
    } else {
        placeholders_all(ss.drop_last()) + placeholders(ss.last())
    }
}

/// The values of (name, value) pairs.
pub open spec fn pair_values(v: Seq<(String, String)>) -> Seq<Seq<char>> {
    v.map_values(|p: (String, String)| p.1@)
}

/// The input IDs that a transport's placeholders name: those of a stdio
/// command, then its arguments, then its environment values.
pub open spec fn discovered_ids(t: TransportConfig) -> Seq<Seq<char>> {
    match t {
        TransportConfig::Stdio { command, args, env, .. } => placeholders(command@)
            + placeholders_all(views(args@)) + placeholders_all(pair_values(env@)),
        TransportConfig::Http { .. } => seq![],
    }
}

impl UserServerEntry {
    /// Normalizes a server ID for prefix compatibility: keeps alphanumeric
    /// characters (ASCII lowercased), hyphens and dots, and removes spaces,
    /// underscores and other characters.
    pub fn normalize_server_id(id: &str) -> (r: String)
        ensures
            r@ == normalized_id(id@),
            all_ascii(id@) ==> r@ == normalized_ascii_id(id@),
    {
        let cs = chars_of(id);
        let mut r = String::new();
        let mut i: usize = 0;
        while i < cs.len()
            invariant
                cs@ == id@,
                i <= cs.len(),
                r@ == normalized_id(id@.take(i as int)),
                all_ascii(id@) ==> r@ == normalized_ascii_id(id@.take(i as int)),
            decreases cs.len() - i,
        {
            let c = cs[i];
            proof {
                assert(id@.take(i + 1).drop_last() == id@.take(i as int));
                assert(id@.take(i + 1).last() == c);
                if all_ascii(id@) {
                    assert((id@[i as int] as u32) < 128);
                }
            }
            if is_alphanumeric(c) {
                push_char(&mut r, lower_char(c));
            } else if c == '-' || c == '.' {
                push_char(&mut r, c);
            }
            i = i + 1;
        }
        assert(id@.take(cs.len() as int) == id@);
        r
    }

    /// Normalizes an alias to be underscore-free: underscores become hyphens,
    /// and letters are ASCII lowercased.
    pub fn normalize_alias(alias: &str) -> (r: String)
        ensures
            r@ == normalized_alias(alias@),
    {
        let cs = chars_of(alias);
        let mut r = String::new();
        let mut i: usize = 0;
        while i < cs.len()
            invariant
                cs@ == alias@,
                i <= cs.len(),
                r@ == normalized_alias(alias@.take(i as int)),
            decreases cs.len() - i,
        {
            let c = cs[i];
            let d = if c == '_' {
                '-'
            } else {
                lower_char(c)
            };
            push_char(&mut r, d);
            assert(normalized_alias(alias@.take(i + 1)) == normalized_alias(alias@.take(i as int)).push(d));
            i = i + 1;
        }
        assert(alias@.take(cs.len() as int) == alias@);
        r
    }
}

/// A normalized alias holds no underscore.
pub proof fn law_alias_has_no_underscore(s: Seq<char>)
    ensures
        !normalized_alias(s).contains('_'),
{
    if normalized_alias(s).contains('_') {
        let k = choose|k: int| 0 <= k < normalized_alias(s).len() && normalized_alias(s)[k] == '_';
        assert(s[k] != '_');
    }
}

/// Normalizing an alias twice gives what normalizing it once gave.
pub proof fn law_alias_normalization_idempotent(s: Seq<char>)
    ensures
        normalized_alias(normalized_alias(s)) == normalized_alias(s),
{
    assert(normalized_alias(normalized_alias(s)) =~= normalized_alias(s));
}

/// A normalized server ID holds no ASCII uppercase letter.
pub proof fn law_normalized_id_has_no_uppercase(s: Seq<char>)
    ensures
        forall|i: int| 0 <= i < normalized_id(s).len() ==> !('A' <= #[trigger] normalized_id(s)[i] && normalized_id(s)[i] <= 'Z'),
    decreases s.len(),
{
    if s.len() > 0 {
        law_normalized_id_has_no_uppercase(s.drop_last());
        let c = s.last();
        if 'A' <= c && c <= 'Z' {
            assert(ascii_lower(c) as u32 == c as u32 + 32);
        }
        let r = normalized_id(s.drop_last());
        assert forall|i: int| 0 <= i < normalized_id(s).len() implies !('A' <= #[trigger] normalized_id(s)[i]
            && normalized_id(s)[i] <= 'Z') by {
            if i < r.len() {
                assert(normalized_id(s)[i] == r[i]);
            }
        }
    }
}

/// A server ID of ASCII text normalizes to one without underscores or
/// spaces.
pub proof fn law_normalized_ascii_id_has_no_underscore(s: Seq<char>)
    ensures
        forall|i: int| 0 <= i < normalized_ascii_id(s).len() ==> #[trigger] normalized_ascii_id(s)[i] != '_'
            && normalized_ascii_id(s)[i] != ' ',
    decreases s.len(),
{
    if s.len() > 0 {
        law_normalized_ascii_id_has_no_underscore(s.drop_last());
        let r = normalized_ascii_id(s.drop_last());
        let c = s.last();
        if 'A' <= c && c <= 'Z' {
            assert(ascii_lower(c) as u32 == c as u32 + 32);
        }
        assert forall|i: int| 0 <= i < normalized_ascii_id(s).len() implies #[trigger] normalized_ascii_id(s)[i]
            != '_' && normalized_ascii_id(s)[i] != ' ' by {
            if i < r.len() {
                assert(normalized_ascii_id(s)[i] == r[i]);
            }
        }
    }
}

/// Position of the first input with this ID, or -1.
pub open spec fn id_pos(l: Seq<InputSpec>, id: Seq<char>) -> int
    decreases l.len(),
{
    if l.len() == 0 {
        -1
    } else {
        let k = id_pos(l.drop_last(), id);
        if k >= 0 {
            k
        } else if l.last().id == id {
            l.len() - 1
        } else {
            -1
        }
    }
}

/// `l` with `x` in place of the input with its ID, or with `x` appended.
pub open spec fn upsert(l: Seq<InputSpec>, x: InputSpec) -> Seq<InputSpec> {
    let k = id_pos(l, x.id);
    if k >= 0 {
        l.update(k, x)
    } else {
        l.push(x)
    }
}

/// `l` with `x` appended unless an input with its ID is there.
pub open spec fn add_absent(l: Seq<InputSpec>, x: InputSpec) -> Seq<InputSpec> {
    if id_pos(l, x.id) >= 0 {
        l
    } else {
        l.push(x)
    }
}

/// `upsert` of each of `xs` in turn: a later definition of an ID replaces an
/// earlier one.
pub open spec fn upsert_all(l: Seq<InputSpec>, xs: Seq<InputSpec>) -> Seq<InputSpec>
    decreases xs.len(),
{
    if xs.len() == 0 {
        l
    } else {
        upsert(upsert_all(l, xs.drop_last()), xs.last())
    }
}

/// `add_absent` of each of `xs` in turn.
pub open spec fn add_all_absent(l: Seq<InputSpec>, xs: Seq<InputSpec>) -> Seq<InputSpec>
    decreases xs.len(),
{
    if xs.len() == 0 {
        l
    } else {
        add_absent(add_all_absent(l, xs.drop_last()), xs.last())
    }
}

/// The input made for a placeholder that no definition covers: a required
/// secret ("password") labelled by its ID, with no default.
pub open spec fn discovered_input(id: Seq<char>) -> InputSpec {
    InputSpec {
        id,
        label: id,
        input_type: "password"@,
        required: true,
        secret: true,
        description: None,
        default: None,
        placeholder: None,
        obtain_url: None,
        obtain_instructions: None,
    }
}

/// `add_absent` of a discovered input for each ID in turn.
pub open spec fn add_discovered(l: Seq<InputSpec>, ids: Seq<Seq<char>>) -> Seq<InputSpec>
    decreases ids.len(),
{
    if ids.len() == 0 {
        l
    } else {
        add_absent(add_discovered(l, ids.drop_last()), discovered_input(ids.last()))
    }
}

/// The inputs of the entry's metadata block.
pub open spec fn explicit_inputs(e: UserServerEntry) -> Seq<InputSpec> {
    match e.metadata {
        Some(m) => match m.inputs {
            Some(v) => input_views(v@),
            None => seq![],
        },
        None => seq![],
    }
}

/// The inputs of an entry with transport `t`: its explicit inputs (a later
/// definition of an ID wins), then those of the transport's metadata, then
/// one for each placeholder ID not yet defined; one input per ID.
pub open spec fn resolved_inputs(e: UserServerEntry, t: TransportConfig) -> Seq<InputSpec> {
    inputs_from(e, input_views(transport_metadata(t).inputs@), discovered_ids(t))
}

/// The inputs of an entry given the inputs its transport carries and the
/// placeholder IDs found in it.
pub open spec fn inputs_from(e: UserServerEntry, carried: Seq<InputSpec>, ids: Seq<Seq<char>>) -> Seq<InputSpec> {
    add_discovered(add_all_absent(upsert_all(seq![], explicit_inputs(e)), carried), ids)
}

/// The (name, value) pairs of an optional list, none when absent.
pub open spec fn pairs_or_empty(v: Option<Vec<(String, String)>>) -> Seq<(String, String)> {
    match v {
        Some(p) => p@,
        None => seq![],
    }
}

/// The transport of an entry: HTTP when it has a URL, else stdio with its
/// command (an empty command when it has none).
pub open spec fn transport_of(t: TransportConfig, e: UserServerEntry) -> bool {
    match e.url {
        Some(u) => t matches TransportConfig::Http { url, headers, .. } && url == u && headers@
            == pairs_or_empty(e.headers),
        None => t matches TransportConfig::Stdio { command, args, env, .. } && match e.command {
            Some(c) => command == c && args@ == match e.args {
                Some(a) => a@,
                None => seq![],
            } && env@ == pairs_or_empty(e.env),
            None => command@.len() == 0 && args@.len() == 0 && env@.len() == 0,
        },
    }
}

/// Facts about `id_pos`: -1 exactly when no input has the ID, else the
/// first position of one.
proof fn lemma_id_pos(l: Seq<InputSpec>, id: Seq<char>)
    ensures
        id_pos(l, id) == -1 <==> forall|j: int| 0 <= j < l.len() ==> #[trigger] l[j].id != id,
        id_pos(l, id) >= 0 ==> id_pos(l, id) < l.len() && l[id_pos(l, id)].id == id && forall|j: int|
            0 <= j < id_pos(l, id) ==> #[trigger] l[j].id != id,
        id_pos(l, id) >= -1,
    decreases l.len(),
{
    if l.len() > 0 {
        lemma_id_pos(l.drop_last(), id);
        assert forall|j: int| 0 <= j < l.len() - 1 implies l.drop_last()[j] == l[j] by {}
    }
}

/// Position of the first input with this ID.
fn find_input(l: &Vec<InputDefinition>, id: &str) -> (r: Option<usize>)
    ensures
        match r {
            Some(k) => id_pos(input_views(l@), id@) == k,
            None => id_pos(input_views(l@), id@) == -1,
        },
{
    proof {
        lemma_id_pos(input_views(l@), id@);
    }
    let ids = chars_of(id);
    let mut i: usize = 0;
    while i < l.len()
        invariant
            ids@ == id@,
            i <= l.len(),
            forall|j: int| 0 <= j < i ==> input_views(l@)[j].id != id@,
        decreases l.len() - i,
    {
        assert(input_views(l@)[i as int] == l@[i as int]@);
        if chars_equal(&chars_of(l[i].id.as_str()), &ids) {
            proof {
                let v = input_views(l@);
                lemma_id_pos(v, id@);
                assert(v[i as int].id == id@);
                let p = id_pos(v, id@);
                assert(p >= 0);
                if p < i {
                    assert(v[p].id != id@);
                }
                if p > i {
                    assert(v[i as int].id != id@);
                }
            }
            return Some(i);
        }
        i = i + 1;
    }
    None
}

/// Replaces the input with `x`'s ID by `x`, or appends `x`.
fn upsert_input(l: &mut Vec<InputDefinition>, x: InputDefinition)
    ensures
        input_views(final(l)@) == upsert(input_views(old(l)@), x@),
{
    proof {
        lemma_id_pos(input_views(l@), x.id@);
    }
    match find_input(l, x.id.as_str()) {
        Some(k) => {
            let ghost xv = x@;
            l.set(k, x);
            assert(input_views(l@) == input_views(old(l)@).update(k as int, xv));
        },
        None => {
            let ghost xv = x@;
            l.push(x);
            assert(input_views(l@) == input_views(old(l)@).push(xv));
        },
    }
}

/// Appends `x` unless an input with its ID is there.
fn add_input_if_absent(l: &mut Vec<InputDefinition>, x: InputDefinition)
    ensures
        input_views(final(l)@) == add_absent(input_views(old(l)@), x@),
{
    match find_input(l, x.id.as_str()) {
        Some(_) => {},
        None => {
            let ghost xv = x@;
            l.push(x);
            assert(input_views(l@) == input_views(old(l)@).push(xv));
        },
    }
}

/// Appends the input IDs named by placeholders in `s`.
fn push_placeholders(ids: &mut Vec<String>, s: &str)
    ensures
        views(final(ids)@) == views(old(ids)@) + placeholders(s@),
{
    match captures_group1(INPUT_PATTERN, s) {
        Some(groups) => {
            let ghost gs = groups@.map_values(|o: Option<String>| opt_view(o));
            let ghost start = views(ids@);
            let mut i: usize = 0;
            while i < groups.len()
                invariant
                    i <= groups@.len(),
                    gs == groups@.map_values(|o: Option<String>| opt_view(o)),
                    views(ids@) == start + present_ids(gs.take(i as int)),
                decreases groups@.len() - i,
            {
                assert(gs.take(i + 1).drop_last() == gs.take(i as int));
                match &groups[i] {
                    Some(g) => {
                        let ghost before = views(ids@);
                        ids.push(g.clone());
                        assert(views(ids@) == before.push(g@));
                    },
                    None => {},
                }
                i = i + 1;
            }
            assert(gs.take(groups@.len() as int) == gs);
        },
        None => {
            assert(views(ids@) == views(ids@) + placeholders(s@));
        },
    }
}

/// The input IDs named by placeholders in a transport: its stdio command,
/// arguments and environment values, in that order.
fn placeholder_ids(t: &TransportConfig) -> (r: Vec<String>)
    ensures
        views(r@) == discovered_ids(*t),
{
    let mut ids: Vec<String> = Vec::new();
    match t {
        TransportConfig::Stdio { command, args, env, .. } => {
            push_placeholders(&mut ids, command.as_str());
            let ghost after_command = views(ids@);
            let mut i: usize = 0;
            while i < args.len()
                invariant
                    i <= args@.len(),
                    views(ids@) == after_command + placeholders_all(views(args@.take(i as int))),
                decreases args@.len() - i,
            {
                assert(views(args@.take(i + 1)).drop_last() == views(args@.take(i as int)));
                push_placeholders(&mut ids, args[i].as_str());
                i = i + 1;
            }
            assert(args@.take(args@.len() as int) == args@);
            let ghost after_args = views(ids@);
            let mut k: usize = 0;
            while k < env.len()
                invariant
                    k <= env@.len(),
                    views(ids@) == after_args + placeholders_all(pair_values(env@.take(k as int))),
                decreases env@.len() - k,
            {
                assert(pair_values(env@.take(k + 1)).drop_last() == pair_values(env@.take(k as int)));
                push_placeholders(&mut ids, env[k].1.as_str());
                k = k + 1;
            }
            assert(env@.take(env@.len() as int) == env@);
        },
        TransportConfig::Http { .. } => {},
    }
    ids
}

/// A discovered input for an ID.
fn make_discovered_input(id: &String) -> (r: InputDefinition)
    ensures
        r@ == discovered_input(id@),
{
    InputDefinition {
        id: id.clone(),
        label: id.clone(),
        input_type: owned("password"),
        required: true,
        secret: true,
        description: None,
        default: None,
        placeholder: None,
        obtain_url: None,
        obtain_instructions: None,
    }
}

impl UserServerEntry {
    /// The entry's transport (HTTP for a URL, else stdio) and its inputs:
    /// explicit definitions first, then one required secret input for each
    /// `${input:ID}` placeholder that no definition covers.
    pub fn resolve_transport_and_inputs(&self) -> (r: (TransportConfig, Vec<InputDefinition>))
        ensures
            transport_of(r.0, *self),
            transport_metadata(r.0).inputs@.len() == 0,
            input_views(r.1@) == resolved_inputs(*self, r.0),
    {
        let transport = match &self.url {
            Some(url) => TransportConfig::Http {
                url: url.clone(),
                headers: match &self.headers {
                    Some(h) => copy_pairs(h),
                    None => Vec::new(),
                },
                metadata: TransportMetadata::default(),
            },
            None => match &self.command {
                Some(cmd) => TransportConfig::Stdio {
                    command: cmd.clone(),
                    args: match &self.args {
                        Some(a) => copy_strings(a),
                        None => Vec::new(),
                    },
                    env: match &self.env {
                        Some(e) => copy_pairs(e),
                        None => Vec::new(),
                    },
                    metadata: TransportMetadata::default(),
                },
                None => TransportConfig::Stdio {
                    command: String::new(),
                    args: Vec::new(),
                    env: Vec::new(),
                    metadata: TransportMetadata::default(),
                },
            },
        };
        let mut inputs: Vec<InputDefinition> = Vec::new();
        let explicit: &[InputDefinition] = match &self.metadata {
            Some(m) => match &m.inputs {
                Some(v) => v.as_slice(),
                None => &[],
            },
            None => &[],
        };
        assert(input_views(explicit@) == explicit_inputs(*self));
        let mut i: usize = 0;
        while i < explicit.len()
            invariant
                i <= explicit@.len(),
                input_views(inputs@) == upsert_all(seq![], input_views(explicit@.take(i as int))),
            decreases explicit@.len() - i,
        {
            assert(input_views(explicit@.take(i + 1)).drop_last() == input_views(explicit@.take(i as int)));
            upsert_input(&mut inputs, explicit[i].duplicate());
            i = i + 1;
        }
        assert(explicit@.take(explicit@.len() as int) == explicit@);
        let ghost after_explicit = input_views(inputs@);
        let carried = &transport.metadata().inputs;
        let mut k: usize = 0;
        while k < carried.len()
            invariant
                k <= carried@.len(),
                input_views(inputs@) == add_all_absent(after_explicit, input_views(carried@.take(k as int))),
            decreases carried@.len() - k,
        {
            assert(input_views(carried@.take(k + 1)).drop_last() == input_views(carried@.take(k as int)));
            add_input_if_absent(&mut inputs, carried[k].duplicate());
            k = k + 1;
        }
        assert(carried@.take(carried@.len() as int) == carried@);
        let ghost after_carried = input_views(inputs@);
        let ids = placeholder_ids(&transport);
        let mut m: usize = 0;
        while m < ids.len()
            invariant
                m <= ids@.len(),
                input_views(inputs@) == add_discovered(after_carried, views(ids@.take(m as int))),
            decreases ids@.len() - m,
        {
            assert(views(ids@.take(m + 1)).drop_last() == views(ids@.take(m as int)));
            add_input_if_absent(&mut inputs, make_discovered_input(&ids[m]));
            m = m + 1;
        }
        assert(ids@.take(ids@.len() as int) == ids@);
        (transport, inputs)
    }
}

/// No two inputs share an ID.
pub open spec fn unique_ids(l: Seq<InputSpec>) -> bool {
    forall|i: int, j: int| 0 <= i < j < l.len() ==> #[trigger] l[i].id != #[trigger] l[j].id
}

/// Some input has this ID.
pub open spec fn has_input(l: Seq<InputSpec>, id: Seq<char>) -> bool {
    exists|i: int| 0 <= i < l.len() && #[trigger] l[i].id == id
}

/// `upsert` keeps IDs unique, holds `x` afterwards, keeps every ID, and keeps
/// every input whose ID differs from `x`'s.
proof fn lemma_upsert(l: Seq<InputSpec>, x: InputSpec)
    ensures
        unique_ids(l) ==> unique_ids(upsert(l, x)),
        upsert(l, x).contains(x),
        forall|id: Seq<char>| has_input(l, id) ==> has_input(upsert(l, x), id),
        forall|y: InputSpec| l.contains(y) && y.id != x.id ==> upsert(l, x).contains(y),
{
    lemma_id_pos(l, x.id);
    let k = id_pos(l, x.id);
    let r = upsert(l, x);
    if k >= 0 {
        assert(r[k] == x);
        assert forall|id: Seq<char>| has_input(l, id) implies has_input(r, id) by {
            let i = choose|i: int| 0 <= i < l.len() && #[trigger] l[i].id == id;
            assert(r[i].id == id);
        }
        assert forall|y: InputSpec| l.contains(y) && y.id != x.id implies r.contains(y) by {
            let i = choose|i: int| 0 <= i < l.len() && l[i] == y;
            assert(r[i] == y);
        }
    } else {
        assert(r[l.len() as int] == x);
        assert forall|id: Seq<char>| has_input(l, id) implies has_input(r, id) by {
            let i = choose|i: int| 0 <= i < l.len() && #[trigger] l[i].id == id;
            assert(r[i].id == id);
        }
        assert forall|y: InputSpec| l.contains(y) && y.id != x.id implies r.contains(y) by {
            let i = choose|i: int| 0 <= i < l.len() && l[i] == y;
            assert(r[i] == y);
        }
    }
}

/// `add_absent` keeps IDs unique, holds `x`'s ID afterwards and keeps every
/// input.
proof fn lemma_add_absent(l: Seq<InputSpec>, x: InputSpec)
    ensures
        unique_ids(l) ==> unique_ids(add_absent(l, x)),
        has_input(add_absent(l, x), x.id),
        forall|y: InputSpec| l.contains(y) ==> add_absent(l, x).contains(y),
        forall|id: Seq<char>| has_input(l, id) ==> has_input(add_absent(l, x), id),
        id_pos(l, x.id) < 0 ==> add_absent(l, x).contains(x),
{
    lemma_id_pos(l, x.id);
    let r = add_absent(l, x);
    if id_pos(l, x.id) >= 0 {
        assert(l[id_pos(l, x.id)].id == x.id);
    } else {
        assert(r[l.len() as int] == x);
        assert forall|y: InputSpec| l.contains(y) implies r.contains(y) by {
            let i = choose|i: int| 0 <= i < l.len() && l[i] == y;
            assert(r[i] == y);
        }
        assert forall|id: Seq<char>| has_input(l, id) implies has_input(r, id) by {
            let i = choose|i: int| 0 <= i < l.len() && #[trigger] l[i].id == id;
            assert(r[i].id == id);
        }
    }
}

/// `add_all_absent` keeps IDs unique and keeps every input and ID.
proof fn lemma_add_all_absent(l: Seq<InputSpec>, xs: Seq<InputSpec>)
    ensures
        unique_ids(l) ==> unique_ids(add_all_absent(l, xs)),
        forall|y: InputSpec| l.contains(y) ==> add_all_absent(l, xs).contains(y),
        forall|id: Seq<char>| has_input(l, id) ==> has_input(add_all_absent(l, xs), id),
    decreases xs.len(),
{
    if xs.len() > 0 {
        lemma_add_all_absent(l, xs.drop_last());
        lemma_add_absent(add_all_absent(l, xs.drop_last()), xs.last());
    }
}

/// `add_discovered` keeps IDs unique, keeps every input and ID, and holds an
/// input for each of `ids`.
proof fn lemma_add_discovered(l: Seq<InputSpec>, ids: Seq<Seq<char>>)
    ensures
        unique_ids(l) ==> unique_ids(add_discovered(l, ids)),
        forall|y: InputSpec| l.contains(y) ==> add_discovered(l, ids).contains(y),
        forall|id: Seq<char>| has_input(l, id) ==> has_input(add_discovered(l, ids), id),
        forall|i: int| 0 <= i < ids.len() ==> has_input(add_discovered(l, ids), #[trigger] ids[i]),
    decreases ids.len(),
{
    if ids.len() > 0 {
        let prev = add_discovered(l, ids.drop_last());
        lemma_add_discovered(l, ids.drop_last());
        lemma_add_absent(prev, discovered_input(ids.last()));
        assert forall|i: int| 0 <= i < ids.len() implies has_input(add_discovered(l, ids), #[trigger] ids[i]) by {
            if i < ids.len() - 1 {
                assert(ids.drop_last()[i] == ids[i]);
            }
        }
    }
}

/// The last definition of an ID in `xs` at position `i`.
pub open spec fn last_definition(xs: Seq<InputSpec>, i: int) -> bool {
    0 <= i < xs.len() && forall|j: int| i < j < xs.len() ==> #[trigger] xs[j].id != xs[i].id
}

/// `upsert_all` from an empty list keeps IDs unique and holds the last
/// definition of each ID.
proof fn lemma_upsert_all(xs: Seq<InputSpec>)
    ensures
        unique_ids(upsert_all(seq![], xs)),
        forall|i: int| last_definition(xs, i) ==> upsert_all(seq![], xs).contains(#[trigger] xs[i]),
    decreases xs.len(),
{
    if xs.len() > 0 {
        let prev = upsert_all(seq![], xs.drop_last());
        lemma_upsert_all(xs.drop_last());
        lemma_upsert(prev, xs.last());
        assert forall|i: int| last_definition(xs, i) implies upsert_all(seq![], xs).contains(#[trigger] xs[i]) by {
            if i < xs.len() - 1 {
                assert(xs.drop_last()[i] == xs[i]);
                assert forall|j: int| i < j < xs.drop_last().len() implies #[trigger] xs.drop_last()[j].id != xs.drop_last()[i].id by {
                    assert(xs.drop_last()[j] == xs[j]);
                }
                assert(last_definition(xs.drop_last(), i));
                assert(xs[xs.len() - 1].id != xs[i].id);
            }
        }
    }
}

/// The IDs after `upsert`: those before and `x`'s.
proof fn lemma_upsert_ids(l: Seq<InputSpec>, x: InputSpec, id: Seq<char>)
    ensures
        has_input(upsert(l, x), id) <==> has_input(l, id) || id == x.id,
{
    lemma_id_pos(l, x.id);
    let k = id_pos(l, x.id);
    let r = upsert(l, x);
    if has_input(r, id) {
        let i = choose|i: int| 0 <= i < r.len() && #[trigger] r[i].id == id;
        if id != x.id {
            assert(l[i].id == id);
        }
    }
    if has_input(l, id) {
        let i = choose|i: int| 0 <= i < l.len() && #[trigger] l[i].id == id;
        if i != k {
            assert(r[i].id == id);
        } else {
            assert(r[k].id == id);
        }
    }
    if id == x.id {
        if k >= 0 {
            assert(r[k].id == id);
        } else {
            assert(r[l.len() as int].id == id);
        }
    }
}

/// The IDs after `add_absent`: those before and `x`'s.
proof fn lemma_add_absent_ids(l: Seq<InputSpec>, x: InputSpec, id: Seq<char>)
    ensures
        has_input(add_absent(l, x), id) <==> has_input(l, id) || id == x.id,
{
    lemma_id_pos(l, x.id);
    let r = add_absent(l, x);
    if id_pos(l, x.id) >= 0 {
        if id == x.id {
            assert(l[id_pos(l, x.id)].id == id);
        }
    } else {
        if has_input(r, id) {
            let i = choose|i: int| 0 <= i < r.len() && #[trigger] r[i].id == id;
            if i < l.len() {
                assert(l[i].id == id);
            }
        }
        if has_input(l, id) {
            let i = choose|i: int| 0 <= i < l.len() && #[trigger] l[i].id == id;
            assert(r[i].id == id);
        }
        if id == x.id {
            assert(r[l.len() as int].id == id);
        }
    }
}

/// The IDs after `upsert_all`: those before and those of `xs`.
proof fn lemma_upsert_all_ids(l: Seq<InputSpec>, xs: Seq<InputSpec>, id: Seq<char>)
    ensures
        has_input(upsert_all(l, xs), id) <==> has_input(l, id) || has_input(xs, id),
    decreases xs.len(),
{
    if xs.len() > 0 {
        lemma_upsert_all_ids(l, xs.drop_last(), id);
        lemma_upsert_ids(upsert_all(l, xs.drop_last()), xs.last(), id);
        lemma_has_input_drop_last(xs, id);
    }
}

/// The IDs after `add_all_absent`: those before and those of `xs`.
proof fn lemma_add_all_absent_ids(l: Seq<InputSpec>, xs: Seq<InputSpec>, id: Seq<char>)
    ensures
        has_input(add_all_absent(l, xs), id) <==> has_input(l, id) || has_input(xs, id),
    decreases xs.len(),
{
    if xs.len() > 0 {
        lemma_add_all_absent_ids(l, xs.drop_last(), id);
        lemma_add_absent_ids(add_all_absent(l, xs.drop_last()), xs.last(), id);
        lemma_has_input_drop_last(xs, id);
    }
}

/// The IDs after `add_discovered`: those before and `ids`.
proof fn lemma_add_discovered_ids(l: Seq<InputSpec>, ids: Seq<Seq<char>>, id: Seq<char>)
    ensures
        has_input(add_discovered(l, ids), id) <==> has_input(l, id) || ids.contains(id),
    decreases ids.len(),
{
    if ids.len() > 0 {
        lemma_add_discovered_ids(l, ids.drop_last(), id);
        lemma_add_absent_ids(add_discovered(l, ids.drop_last()), discovered_input(ids.last()), id);
        if ids.contains(id) {
            let i = choose|i: int| 0 <= i < ids.len() && ids[i] == id;
            if i < ids.len() - 1 {
                assert(ids.drop_last()[i] == id);
            }
        }
        if ids.drop_last().contains(id) {
            let i = choose|i: int| 0 <= i < ids.drop_last().len() && ids.drop_last()[i] == id;
            assert(ids[i] == id);
        }
    }
}

/// An ID is among a sequence's inputs exactly when it is among all but the
/// last or it is the last one's.
proof fn lemma_has_input_drop_last(xs: Seq<InputSpec>, id: Seq<char>)
    requires
        xs.len() > 0,
    ensures
        has_input(xs, id) <==> has_input(xs.drop_last(), id) || xs.last().id == id,
{
    if has_input(xs, id) {
        let i = choose|i: int| 0 <= i < xs.len() && #[trigger] xs[i].id == id;
        if i < xs.len() - 1 {
            assert(xs.drop_last()[i].id == id);
        }
    }
    if has_input(xs.drop_last(), id) {
        let i = choose|i: int| 0 <= i < xs.drop_last().len() && #[trigger] xs.drop_last()[i].id == id;
        assert(xs[i].id == id);
    }
}

/// The resolved inputs hold exactly the IDs of the explicit definitions, of
/// the inputs the transport carries, and of the placeholders.
pub proof fn law_resolved_input_ids(e: UserServerEntry, t: TransportConfig, id: Seq<char>)
    ensures
        has_input(resolved_inputs(e, t), id) <==> has_input(explicit_inputs(e), id) || has_input(
            input_views(transport_metadata(t).inputs@),
            id,
        ) || discovered_ids(t).contains(id),
{
    let a = upsert_all(seq![], explicit_inputs(e));
    let b = add_all_absent(a, input_views(transport_metadata(t).inputs@));
    lemma_upsert_all_ids(seq![], explicit_inputs(e), id);
    lemma_add_all_absent_ids(a, input_views(transport_metadata(t).inputs@), id);
    lemma_add_discovered_ids(b, discovered_ids(t), id);
    assert(!has_input(Seq::<InputSpec>::empty(), id));
}

/// The resolved inputs of an entry never hold two inputs with one ID.
pub proof fn law_resolved_inputs_unique(e: UserServerEntry, t: TransportConfig)
    ensures
        unique_ids(resolved_inputs(e, t)),
{
    let a = upsert_all(seq![], explicit_inputs(e));
    let b = add_all_absent(a, input_views(transport_metadata(t).inputs@));
    assert(resolved_inputs(e, t) == add_discovered(b, discovered_ids(t)));
    lemma_upsert_all(explicit_inputs(e));
    lemma_add_all_absent(a, input_views(transport_metadata(t).inputs@));
    lemma_add_discovered(b, discovered_ids(t));
}

/// Every `${input:ID}` placeholder of the transport has an input.
pub proof fn law_placeholders_have_inputs(e: UserServerEntry, t: TransportConfig)
    ensures
        forall|i: int| 0 <= i < discovered_ids(t).len() ==> has_input(resolved_inputs(e, t), #[trigger] discovered_ids(t)[i]),
{
    let a = upsert_all(seq![], explicit_inputs(e));
    let b = add_all_absent(a, input_views(transport_metadata(t).inputs@));
    assert(resolved_inputs(e, t) == add_discovered(b, discovered_ids(t)));
    lemma_add_discovered(b, discovered_ids(t));
}

/// An explicit input definition (the last one given for its ID) is kept as
/// it was written: placeholders never override it.
pub proof fn law_explicit_inputs_take_precedence(e: UserServerEntry, t: TransportConfig, i: int)
    requires
        last_definition(explicit_inputs(e), i),
    ensures
        resolved_inputs(e, t).contains(explicit_inputs(e)[i]),
{
    let a = upsert_all(seq![], explicit_inputs(e));
    let b = add_all_absent(a, input_views(transport_metadata(t).inputs@));
    assert(resolved_inputs(e, t) == add_discovered(b, discovered_ids(t)));
    lemma_upsert_all(explicit_inputs(e));
    lemma_add_all_absent(a, input_views(transport_metadata(t).inputs@));
    lemma_add_discovered(b, discovered_ids(t));
}

/// `t` with its metadata inputs replaced by `inputs`; everything else kept.
pub open spec fn with_inputs(r: TransportConfig, t: TransportConfig, inputs: Seq<InputDefinition>) -> bool {
    match t {
        TransportConfig::Stdio { command, args, env, .. } => r matches TransportConfig::Stdio {
            command: c,
            args: a,
            env: v,
            metadata: m,
        } && c == command && a == args && v == env && m.inputs@ == inputs,
        TransportConfig::Http { url, headers, .. } => r matches TransportConfig::Http {
            url: u,
            headers: h,
            metadata: m,
        } && u == url && h == headers && m.inputs@ == inputs,
    }
}

/// The authentication assumed for a server that names none: an API key when
/// a required secret input exists, an optional API key when only optional
/// secret inputs exist, else none.
pub open spec fn inferred_auth(l: Seq<InputSpec>) -> AuthConfig {
    if exists|i: int| 0 <= i < l.len() && #[trigger] l[i].required && l[i].secret {
        AuthConfig::ApiKey { instructions: None }
    } else if exists|i: int| 0 <= i < l.len() && !#[trigger] l[i].required && l[i].secret {
        AuthConfig::OptionalApiKey { instructions: None }
    } else {
        AuthConfig::NoAuth
    }
}

/// The alias of a server: the explicit alias normalized, else the normalized
/// ID when normalizing changed more than the letter case, else none.
pub open spec fn alias_of(alias: Option<String>, id: Seq<char>) -> Option<Seq<char>> {
    match alias {
        Some(a) => Some(normalized_alias(a@)),
        None => if normalized_id(id) != unicode_lowercase(id) {
            Some(normalized_id(id))
        } else {
            None
        },
    }
}

/// `alias_of` for an ASCII ID: the explicit alias normalized, else the
/// normalized ID when normalizing changed more than the ASCII letter case.
pub open spec fn alias_of_ascii(alias: Option<String>, id: Seq<char>) -> Option<Seq<char>> {
    match alias {
        Some(a) => Some(normalized_alias(a@)),
        None => if normalized_ascii_id(id) != ascii_lower_seq(id) {
            Some(normalized_ascii_id(id))
        } else {
            None
        },
    }
}

/// The publisher override of the entry's metadata block.
pub open spec fn publisher_of(e: UserServerEntry) -> Option<PublisherInfo> {
    match e.metadata {
        Some(m) => m.publisher,
        None => None,
    }
}

/// The server definition made from an entry of a user space file.
pub open spec fn defined_as(d: ServerDefinition, e: UserServerEntry, id: Seq<char>, space_id: Seq<char>, file_path: Seq<char>) -> bool {
    let inputs = input_views(transport_metadata(d.transport).inputs@);
    &&& d.id@ == normalized_id(id)
    &&& d.name@ == match e.name {
        Some(n) => n@,
        None => id,
    }
    &&& d.description == e.description
    &&& d.icon == e.icon
    &&& opt_view(d.alias) == alias_of(e.alias, id)
    &&& d.auth == Some(
        match e.auth {
            Some(a) => a,
            None => inferred_auth(inputs),
        },
    )
    &&& transport_of(d.transport, e)
    &&& inputs == inputs_from(e, seq![], discovered_ids(d.transport))
    &&& d.categories@.len() == 0
    &&& d.publisher == publisher_of(e)
    &&& d.source matches ServerSource::UserSpace { space_id: s, file_path: f } && s@ == space_id && f@ == file_path
    &&& d.badges@.len() == 0
    &&& d.hosting_type == HostingType::Local
    &&& d.license is None && d.license_url is None && d.installation is None
    &&& d.capabilities is None && d.sponsored is None && d.media is None && d.changelog_url is None
}

/// Whether some input is required and secret, and whether some input is
/// optional and secret.
fn secret_kinds(l: &Vec<InputDefinition>) -> (r: (bool, bool))
    ensures
        r.0 == exists|i: int| 0 <= i < l@.len() && #[trigger] input_views(l@)[i].required && input_views(l@)[i].secret,
        r.1 == exists|i: int| 0 <= i < l@.len() && !#[trigger] input_views(l@)[i].required && input_views(l@)[i].secret,
{
    let mut req = false;
    let mut opt = false;
    let mut i: usize = 0;
    while i < l.len()
        invariant
            i <= l@.len(),
            req == exists|j: int| 0 <= j < i && #[trigger] input_views(l@)[j].required && input_views(l@)[j].secret,
            opt == exists|j: int| 0 <= j < i && !#[trigger] input_views(l@)[j].required && input_views(l@)[j].secret,
        decreases l@.len() - i,
    {
        let x = &l[i];
        let ghost v = input_views(l@);
        assert(v[i as int] == l@[i as int]@);
        assert(v[i as int].required == x.required && v[i as int].secret == x.secret);
        if x.required && x.secret {
            req = true;
        }
        if !x.required && x.secret {
            opt = true;
        }
        proof {
            if req {
                if !(exists|j: int| 0 <= j < i && #[trigger] v[j].required && v[j].secret) {
                    assert(v[i as int].required && v[i as int].secret);
                }
            }
            if opt {
                if !(exists|j: int| 0 <= j < i && !#[trigger] v[j].required && v[j].secret) {
                    assert(!v[i as int].required && v[i as int].secret);
                }
            }
        }
        i = i + 1;
    }
    (req, opt)
}

impl UserServerEntry {
    /// `transport` with its metadata inputs replaced by `inputs`.
    pub fn inject_inputs_into_transport(&self, transport: TransportConfig, inputs: Vec<InputDefinition>) -> (r:
        TransportConfig)
        ensures
            with_inputs(r, transport, inputs@),
    {
        match transport {
            TransportConfig::Stdio { command, args, env, .. } => TransportConfig::Stdio {
                command,
                args,
                env,
                metadata: TransportMetadata { inputs },
            },
            TransportConfig::Http { url, headers, .. } => TransportConfig::Http {
                url,
                headers,
                metadata: TransportMetadata { inputs },
            },
        }
    }

    /// The server definition for this entry under ID `id`, in space
    /// `space_id`, loaded from `file_path`: the ID normalized for tool
    /// prefixes, inputs resolved into the transport, and authentication
    /// inferred from secret inputs when the entry names none.
    pub fn to_server_definition(&self, id: &str, space_id: &str, file_path: String) -> (d:
        ServerDefinition)
        ensures
            defined_as(d, *self, id@, space_id@, file_path@),
            all_ascii(id@) ==> d.id@ == normalized_ascii_id(id@) && opt_view(d.alias) == alias_of_ascii(
                self.alias,
                id@,
            ),
    {
        let (transport, inputs) = self.resolve_transport_and_inputs();
        let ghost t0 = transport;
        let auth = match &self.auth {
            Some(a) => a.duplicate(),
            None => {
                let (req, opt) = secret_kinds(&inputs);
                if req {
                    AuthConfig::ApiKey { instructions: None }
                } else if opt {
                    AuthConfig::OptionalApiKey { instructions: None }
                } else {
                    AuthConfig::NoAuth
                }
            },
        };
        let normalized = Self::normalize_server_id(id);
        let alias = match &self.alias {
            Some(a) => Some(Self::normalize_alias(a.as_str())),
            None => {
                let lower = to_lowercase(id);
                if !chars_equal(&chars_of(normalized.as_str()), &chars_of(lower.as_str())) {
                    Some(normalized.clone())
                } else {
                    None
                }
            },
        };
        let name = match &self.name {
            Some(n) => n.clone(),
            None => owned(id),
        };
        let publisher = match &self.metadata {
            Some(m) => match &m.publisher {
                Some(p) => Some(p.duplicate()),
                None => None,
            },
            None => None,
        };
        let icon = match &self.icon {
            Some(i) => Some(i.duplicate()),
            None => None,
        };
        let transport = self.inject_inputs_into_transport(transport, inputs);
        proof {
            assert(discovered_ids(transport) == discovered_ids(t0));
            assert(input_views(transport_metadata(t0).inputs@) == Seq::<InputSpec>::empty());
        }
        ServerDefinition {
            id: normalized,
            name,
            description: copy_opt(&self.description),
            alias,
            auth: Some(auth),
            icon,
            transport,
            categories: Vec::new(),
            publisher,
            source: ServerSource::UserSpace { space_id: owned(space_id), file_path },
            badges: Vec::new(),
            hosting_type: HostingType::Local,
            license: None,
            license_url: None,
            installation: None,
            capabilities: None,
            sponsored: None,
            media: None,
            changelog_url: None,
        }
    }
}

/// A definition made from an entry is determined by the entry, its ID, the
/// space and the file: two definitions that both meet `defined_as` (such as
/// an element of `to_server_definitions` and `to_server_definition` of its
/// entry) agree on ID, name, description, icon, alias, authentication,
/// transport inputs, publisher and source.
pub proof fn law_definition_is_determined(
    d1: ServerDefinition,
    d2: ServerDefinition,
    e: UserServerEntry,
    id: Seq<char>,
    space_id: Seq<char>,
    file_path: Seq<char>,
)
    requires
        defined_as(d1, e, id, space_id, file_path),
        defined_as(d2, e, id, space_id, file_path),
    ensures
        d1.id@ == d2.id@,
        d1.name@ == d2.name@,
        d1.description == d2.description,
        d1.icon == d2.icon,
        opt_view(d1.alias) == opt_view(d2.alias),
        d1.auth == d2.auth,
        input_views(transport_metadata(d1.transport).inputs@) == input_views(transport_metadata(d2.transport).inputs@),
        d1.publisher == d2.publisher,
        d1.source matches ServerSource::UserSpace { space_id: s1, file_path: f1 } && d2.source matches ServerSource::UserSpace {
            space_id: s2,
            file_path: f2,
        } && s1@ == s2@ && f1@ == f2@,
{
    lemma_discovered_ids_of_entry(d1.transport, d2.transport, e);
}

/// Two transports built from the same entry name the same placeholder IDs.
proof fn lemma_discovered_ids_of_entry(t1: TransportConfig, t2: TransportConfig, e: UserServerEntry)
    requires
        transport_of(t1, e),
        transport_of(t2, e),
    ensures
        discovered_ids(t1) == discovered_ids(t2),
{
    match (t1, t2) {
        (TransportConfig::Stdio { command: c1, args: a1, env: v1, .. }, TransportConfig::Stdio {
            command: c2,
            args: a2,
            env: v2,
            ..
        }) => {
            if e.command is None {
                assert(c1@ =~= c2@);
                assert(a1@ =~= a2@);
                assert(v1@ =~= v2@);
            }
        },
        _ => {},
    }
}

/// A server definition made from an entry carries exactly the inputs that
/// `resolve_transport_and_inputs` resolves for it, in the same order, and
/// infers its authentication from them when the entry names none.
pub proof fn law_definition_uses_resolved_inputs(
    e: UserServerEntry,
    t: TransportConfig,
    d: ServerDefinition,
    id: Seq<char>,
    space_id: Seq<char>,
    file_path: Seq<char>,
)
    requires
        transport_of(t, e),
        transport_metadata(t).inputs@.len() == 0,
        defined_as(d, e, id, space_id, file_path),
    ensures
        input_views(transport_metadata(d.transport).inputs@) == resolved_inputs(e, t),
        d.auth == Some(
            match e.auth {
                Some(a) => a,
                None => inferred_auth(resolved_inputs(e, t)),
            },
        ),
{
    lemma_discovered_ids_of_entry(t, d.transport, e);
    assert(input_views(transport_metadata(t).inputs@) =~= Seq::<InputSpec>::empty());
}

/// The IDs of the pairs are distinct.
pub open spec fn ids_distinct(v: Seq<(String, UserServerEntry)>) -> bool {
    forall|i: int, j: int| 0 <= i < j < v.len() ==> (#[trigger] v[i]).0@ != (#[trigger] v[j]).0@
}

/// The pair at `j` is the last one with its ID.
pub open spec fn last_with_id(v: Seq<(String, UserServerEntry)>, j: int) -> bool {
    0 <= j < v.len() && forall|k: int| j < k < v.len() ==> (#[trigger] v[k]).0@ != v[j].0@
}

/// The pair at `i` of `v` is the last pair of `entries` with its ID.
pub open spec fn from_last(v: Seq<(String, UserServerEntry)>, entries: Seq<(String, UserServerEntry)>, i: int) -> bool {
    exists|j: int| last_with_id(entries, j) && v[i] == entries[j]
}

/// Some pair has this ID.
pub open spec fn has_id(v: Seq<(String, UserServerEntry)>, id: Seq<char>) -> bool {
    exists|i: int| 0 <= i < v.len() && (#[trigger] v[i]).0@ == id
}

impl UserSpaceConfig {
    /// Server entries are keyed by ID: no ID occurs twice.
    pub open spec fn wf(&self) -> bool {
        ids_distinct(self.servers@)
    }

    /// The configuration of the `mcpServers` entries in file order, as a map
    /// by ID keeps them: a later entry with an ID replaces an earlier one in
    /// its place.
    pub fn from_pairs(entries: Vec<(String, UserServerEntry)>) -> (r: Self)
        ensures
            r.wf(),
            forall|id: Seq<char>| has_id(r.servers@, id) <==> has_id(entries@, id),
            forall|i: int| 0 <= i < r.servers@.len() ==> #[trigger] from_last(r.servers@, entries@, i),
    {
        let ghost all = entries@;
        let mut rest = entries;
        let mut out: Vec<(String, UserServerEntry)> = Vec::new();
        let ghost mut n: int = 0;
        while rest.len() > 0
            invariant
                0 <= n <= all.len(),
                rest@ == all.skip(n),
                ids_distinct(out@),
                forall|id: Seq<char>| has_id(out@, id) <==> has_id(all.take(n), id),
                forall|i: int|
                    0 <= i < out@.len() ==> exists|j: int|
                        last_with_id(all.take(n), j) && #[trigger] out@[i] == all[j],
            decreases rest@.len(),
        {
            let ghost before = out@;
            let pair = rest.remove(0);
            proof {
                assert(pair == all[n]);
                assert(rest@ =~= all.skip(n + 1));
                assert(all.take(n + 1) =~= all.take(n).push(pair));
            }
            let mut k: usize = 0;
            let mut found: Option<usize> = None;
            while k < out.len()
                invariant
                    k <= out@.len(),
                    found matches Some(p) ==> p < out@.len() && out@[p as int].0@ == pair.0@,
                    found is None ==> forall|m: int| 0 <= m < k ==> (#[trigger] out@[m]).0@ != pair.0@,
                decreases out@.len() - k,
            {
                if found.is_none() && chars_equal(&chars_of(out[k].0.as_str()), &chars_of(pair.0.as_str())) {
                    found = Some(k);
                }
                k = k + 1;
            }
            let ghost id = pair.0@;
            let ghost p2 = pair;
            match found {
                Some(p) => {
                    out.set(p, pair);
                },
                None => {
                    out.push(pair);
                },
            }
            proof {
                let t = all.take(n + 1);
                assert(t.last() == p2);
                assert forall|a: Seq<char>| has_id(out@, a) <==> has_id(t, a) by {
                    if has_id(out@, a) {
                        let i = choose|i: int| 0 <= i < out@.len() && (#[trigger] out@[i]).0@ == a;
                        if a != id {
                            assert(before[i].0@ == a);
                            assert(has_id(before, a));
                            assert(has_id(all.take(n), a));
                            let m = choose|m: int| 0 <= m < all.take(n).len() && (#[trigger] all.take(n)[m]).0@ == a;
                            assert(t[m] == all.take(n)[m]);
                        } else {
                            assert(t[n].0@ == a);
                        }
                    }
                    if has_id(t, a) {
                        let m = choose|m: int| 0 <= m < t.len() && (#[trigger] t[m]).0@ == a;
                        if a == id {
                            match found {
                                Some(p) => assert(out@[p as int].0@ == a),
                                None => assert(out@[before.len() as int].0@ == a),
                            }
                        } else {
                            assert(m < n);
                            assert(all.take(n)[m] == t[m]);
                            assert(has_id(all.take(n), a));
                            assert(has_id(before, a));
                            let i = choose|i: int| 0 <= i < before.len() && (#[trigger] before[i]).0@ == a;
                            match found {
                                Some(p) => {
                                    assert(before[p as int].0@ == id);
                                    assert(i != p);
                                },
                                None => {},
                            }
                            assert(out@[i] == before[i]);
                            assert(has_id(out@, a));
                        }
                    }
                }
                assert forall|i: int, j: int| 0 <= i < j < out@.len() implies (#[trigger] out@[i]).0@ != (
                #[trigger] out@[j]).0@ by {
                    match found {
                        Some(p) => {
                            if i != p && j != p {
                                assert(out@[i] == before[i] && out@[j] == before[j]);
                            } else if i == p {
                                assert(out@[j] == before[j]);
                                assert(before[p as int].0@ == id);
                            } else {
                                assert(out@[i] == before[i]);
                                assert(before[p as int].0@ == id);
                            }
                        },
                        None => {
                            if j < before.len() {
                                assert(out@[i] == before[i] && out@[j] == before[j]);
                            } else {
                                assert(out@[i] == before[i]);
                            }
                        },
                    }
                }
                assert forall|i: int| 0 <= i < out@.len() implies exists|j: int|
                    last_with_id(t, j) && #[trigger] out@[i] == all[j] by {
                    let is_new = match found {
                        Some(p) => i == p,
                        None => i == before.len(),
                    };
                    if is_new {
                        assert(out@[i] == p2);
                        assert(last_with_id(t, n));
                    } else {
                        assert(out@[i] == before[i]);
                        let j = choose|j: int| last_with_id(all.take(n), j) && #[trigger] before[i] == all[j];
                        assert(before[i].0@ != id);
                        assert(t[j] == all.take(n)[j]);
                        assert forall|k2: int| j < k2 < t.len() implies (#[trigger] t[k2]).0@ != t[j].0@ by {
                            if k2 < n {
                                assert(t[k2] == all.take(n)[k2]);
                            }
                        }
                        assert(last_with_id(t, j));
                    }
                }
                n = n + 1;
            }
        }
        proof {
            assert(all.take(n) =~= all);
            assert(n == all.len());
            assert forall|i: int| 0 <= i < out@.len() implies exists|j: int|
                last_with_id(all, j) && #[trigger] out@[i] == all[j] by {
                assert(out@[i] == out@[i]);
                assert(exists|j: int| last_with_id(all.take(n), j) && #[trigger] out@[i] == all[j]);
                let j = choose|j: int| last_with_id(all.take(n), j) && #[trigger] out@[i] == all[j];
                assert(last_with_id(all, j));
            }
        }
        let r = UserSpaceConfig { servers: out };
        assert(all == entries@);
        assert forall|i: int| 0 <= i < r.servers@.len() implies #[trigger] from_last(r.servers@, entries@, i) by {
            assert(r.servers@[i] == out@[i]);
            let j = choose|j: int| last_with_id(all, j) && #[trigger] out@[i] == all[j];
            assert(last_with_id(entries@, j) && r.servers@[i] == entries@[j]);
        }
        r
    }

    /// The server definitions of every entry, in file order, for space
    /// `space_id` and file `file_path`.
    pub fn to_server_definitions(&self, space_id: &str, file_path: &str) -> (r: Vec<ServerDefinition>)
        ensures
            r@.len() == self.servers@.len(),
            forall|i: int| 0 <= i < r@.len() ==> defined_as(#[trigger] r@[i], self.servers@[i].1, self.servers@[i].0@, space_id@, file_path@),
            forall|i: int| 0 <= i < r@.len() && all_ascii(self.servers@[i].0@) ==> (#[trigger] r@[i]).id@
                == normalized_ascii_id(self.servers@[i].0@) && opt_view(r@[i].alias) == alias_of_ascii(
                self.servers@[i].1.alias,
                self.servers@[i].0@,
            ),
    {
        let mut r: Vec<ServerDefinition> = Vec::new();
        let mut i: usize = 0;
        while i < self.servers.len()
            invariant
                i <= self.servers@.len(),
                r@.len() == i,
                forall|j: int| 0 <= j < i ==> defined_as(#[trigger] r@[j], self.servers@[j].1, self.servers@[j].0@, space_id@, file_path@),
                forall|j: int| 0 <= j < i && all_ascii(self.servers@[j].0@) ==> (#[trigger] r@[j]).id@
                    == normalized_ascii_id(self.servers@[j].0@) && opt_view(r@[j].alias) == alias_of_ascii(
                    self.servers@[j].1.alias,
                    self.servers@[j].0@,
                ),
            decreases self.servers@.len() - i,
        {
            let (id, entry) = (&self.servers[i].0, &self.servers[i].1);
            let d = entry.to_server_definition(id.as_str(), space_id, owned(file_path));
            r.push(d);
            i = i + 1;
        }
        r
    }
}

} // verus!
