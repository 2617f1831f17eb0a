//! Pluggable-transport plumbing: role detection, deployment parameters, and
//! the readiness control lines.
//!
//! The process shell reads the deployment parameters from its environment
//! and hands their raw values here. This module decides the role, parses
//! the comma-separated transport list and the `name-address` bind
//! specification, and builds the readiness lines announced to the parent
//! process.

use vstd::prelude::*;
use vstd::string::StrSliceExecFns;
use vstd::string::StringExecFns;

verus! {

/// Version of the pluggable-transport control protocol.
pub const PT_VERSION: &'static str = "1";

/// Name under which this transport announces itself.
pub const TRANSPORT_NAME: &'static str = "quictor";

/// A fault in the deployment parameters.
#[derive(Clone, Copy, PartialEq, Eq, Structural, Debug)]
pub enum EnvError {
    /// Neither the client nor the server variable set is present.
    ModeUnset,
    /// A bind specification has no `-` between name and address.
    InvalidBindSpec,
}

/// The role the process runs in.
#[derive(Debug, Clone, PartialEq, Eq, Structural)]
pub enum PtMode {
    Client,
    Server,
}

/// Decides the role from which variable set the environment carries: the
/// client set wins, then the server set; neither is a fatal startup fault.
pub fn detect_mode(client_vars_present: bool, server_vars_present: bool) -> (r: Result<
    PtMode,
    EnvError,
>)
    ensures
        client_vars_present ==> r == Ok::<PtMode, EnvError>(PtMode::Client),
        !client_vars_present && server_vars_present ==> r == Ok::<PtMode, EnvError>(PtMode::Server),
        !client_vars_present && !server_vars_present ==> r == Err::<PtMode, EnvError>(
            EnvError::ModeUnset,
        ),
{
    if client_vars_present {
        Ok(PtMode::Client)
    } else if server_vars_present {
        Ok(PtMode::Server)
    } else {
        Err(EnvError::ModeUnset)
    }
}

/// Whitespace trimmed around the entries of a transport list.
pub open spec fn is_ws(c: char) -> bool {
    c == ' ' || c == '\t' || c == '\r' || c == '\n'
}

/// The split of `s` at every occurrence of `c`: one part per gap, in order,
/// so `n` separators give `n + 1` parts, empty parts kept.
pub open spec fn spec_split(s: Seq<char>, c: char) -> Seq<Seq<char>>
    decreases s.len(),
{
    if s.len() == 0 {
        seq![Seq::<char>::empty()]
    } else if s[0] == c {
        seq![Seq::<char>::empty()] + spec_split(s.drop_first(), c)
    } else {
        let rest = spec_split(s.drop_first(), c);
        seq![seq![s[0]] + rest[0]] + rest.drop_first()
    }
}

/// `s` with leading whitespace dropped.
pub open spec fn spec_trim_start(s: Seq<char>) -> Seq<char>
    decreases s.len(),
{
    if s.len() > 0 && is_ws(s[0]) {
        spec_trim_start(s.drop_first())
    } else {
        s
    }
}

/// `s` with trailing whitespace dropped.
pub open spec fn spec_trim_end(s: Seq<char>) -> Seq<char>
    decreases s.len(),
{
    if s.len() > 0 && is_ws(s[s.len() - 1]) {
        spec_trim_end(s.drop_last())
    } else {
        s
    }
}

/// `s` with surrounding whitespace dropped.
pub open spec fn spec_trim(s: Seq<char>) -> Seq<char> {
    spec_trim_end(spec_trim_start(s))
}

/// Each part trimmed, empty parts dropped.
pub open spec fn spec_clean_tokens(parts: Seq<Seq<char>>) -> Seq<Seq<char>>
    decreases parts.len(),
{
    if parts.len() == 0 {
        Seq::empty()
    } else {
        let t = spec_trim(parts[0]);
        let rest = spec_clean_tokens(parts.drop_first());
        if t.len() > 0 {
            seq![t] + rest
        } else {
            rest
        }
    }
}

/// The entries of a comma-separated transport list: split at commas,
/// trimmed, empty entries dropped.
pub open spec fn spec_transport_list(s: Seq<char>) -> Seq<Seq<char>> {
    spec_clean_tokens(spec_split(s, ','))
}

/// The views of a list of strings.
pub open spec fn str_views(v: Seq<String>) -> Seq<Seq<char>> {
    v.map(|i: int, x: String| x@)
}

/// Whether `c` is trimmed whitespace.
fn ws_char(c: char) -> (r: bool)
    ensures
        r == is_ws(c),
{
    c == ' ' || c == '\t' || c == '\r' || c == '\n'
}

/// If no character before `j` is `c` and `s` ends or carries `c` at `j`,
/// the split's first part is exactly the prefix up to `j`.
proof fn lemma_split_at(s: Seq<char>, c: char, j: int)
    requires
        0 <= j <= s.len(),
        forall|k: int| 0 <= k < j ==> s[k] != c,
        j < s.len() ==> s[j] == c,
    ensures
        j == s.len() ==> spec_split(s, c) == seq![s],
        j < s.len() ==> spec_split(s, c) == seq![s.subrange(0, j)] + spec_split(
            s.subrange(j + 1, s.len() as int),
            c,
        ),
    decreases j,
{
    if j == 0 {
        if s.len() == 0 {
            assert(s =~= Seq::<char>::empty());
            assert(spec_split(s, c) =~= seq![s]);
        } else if s[0] == c {
            assert(s.drop_first() =~= s.subrange(1, s.len() as int));
            assert(s.subrange(0, 0) =~= Seq::<char>::empty());
            assert(spec_split(s, c) =~= seq![s.subrange(0, 0)] + spec_split(
                s.subrange(1, s.len() as int),
                c,
            ));
        }
    } else {
        let d = s.drop_first();
        lemma_split_at(d, c, j - 1);
        let rest = spec_split(d, c);
        if j == s.len() {
            assert(rest == seq![d]);
            assert(seq![s[0]] + rest[0] =~= s);
            assert(spec_split(s, c) =~= seq![s]);
        } else {
            assert(rest == seq![d.subrange(0, j - 1)] + spec_split(
                d.subrange(j, d.len() as int),
                c,
            ));
            assert(rest[0] == d.subrange(0, j - 1));
            assert(seq![s[0]] + d.subrange(0, j - 1) =~= s.subrange(0, j));
            assert(rest.drop_first() =~= spec_split(d.subrange(j, d.len() as int), c));
            assert(d.subrange(j, d.len() as int) =~= s.subrange(j + 1, s.len() as int));
            assert(spec_split(s, c) =~= seq![s.subrange(0, j)] + spec_split(
                s.subrange(j + 1, s.len() as int),
                c,
            ));
        }
    }
}

/// Splits `s` at every comma.
fn split_commas(s: &str) -> (r: Vec<String>)
    ensures
        str_views(r@) == spec_split(s@, ','),
{
    let n: usize = s.unicode_len();
    let mut out: Vec<String> = Vec::new();
    let mut pos: usize = 0;
    let mut done: bool = false;
    proof {
        assert(s@.subrange(0, n as int) =~= s@);
    }
    while !done
        invariant
            pos <= n,
            n == s@.len(),
            !done ==> str_views(out@) + spec_split(s@.subrange(pos as int, n as int), ',')
                =~= spec_split(s@, ','),
            done ==> str_views(out@) =~= spec_split(s@, ','),
        decreases (if done { 0int } else { n - pos + 1 }),
    {
        let ghost suffix = s@.subrange(pos as int, n as int);
        let mut j: usize = pos;
        while j < n && s.get_char(j) != ','
            invariant
                pos <= j <= n,
                n == s@.len(),
                forall|k: int| pos <= k < j ==> s@[k] != ',',
            decreases n - j,
        {
            j = j + 1;
        }
        assert(j < n ==> s@[j as int] == ',');
        let token = s.substring_char(pos, j).to_owned();
        assert(token@ =~= suffix.subrange(0, j - pos));
        proof {
            assert(forall|k: int| 0 <= k < j - pos ==> suffix[k] != ',');
            assert(j < n ==> suffix[j - pos] == ',');
            lemma_split_at(suffix, ',', j - pos);
        }
        let ghost old_out = out@;
        out.push(token);
        assert(str_views(out@) =~= str_views(old_out).push(token@));
        if j == n {
            proof {
                assert(spec_split(suffix, ',') == seq![suffix]);
                assert(token@ =~= suffix);
                assert(str_views(out@) =~= str_views(old_out) + seq![suffix]);
            }
            done = true;
        } else {
            proof {
                let tail = suffix.subrange(j - pos + 1, suffix.len() as int);
                assert(spec_split(suffix, ',') == seq![suffix.subrange(0, j - pos)] + spec_split(
                    tail,
                    ',',
                ));
                assert(tail =~= s@.subrange(j + 1, n as int));
                assert(str_views(out@) + spec_split(s@.subrange(j + 1, n as int), ',')
                    =~= str_views(old_out) + spec_split(suffix, ','));
            }
            pos = j + 1;
        }
    }
    out
}

/// Leading whitespace ends exactly at the first non-whitespace index.
proof fn lemma_trim_start_at(s: Seq<char>, a: int)
    requires
        0 <= a <= s.len(),
        forall|k: int| 0 <= k < a ==> is_ws(s[k]),
        a < s.len() ==> !is_ws(s[a]),
    ensures
        spec_trim_start(s) == s.subrange(a, s.len() as int),
    decreases a,
{
    if a == 0 {
        assert(s.subrange(0, s.len() as int) =~= s);
    } else {
        lemma_trim_start_at(s.drop_first(), a - 1);
        assert(s.drop_first().subrange(a - 1, s.drop_first().len() as int) =~= s.subrange(
            a,
            s.len() as int,
        ));
    }
}

/// Trailing whitespace starts exactly at the last non-whitespace index.
proof fn lemma_trim_end_at(s: Seq<char>, b: int)
    requires
        0 <= b <= s.len(),
        forall|k: int| b <= k < s.len() ==> is_ws(s[k]),
        b > 0 ==> !is_ws(s[b - 1]),
    ensures
        spec_trim_end(s) == s.subrange(0, b),
    decreases s.len() - b,
{
    if b == s.len() {
        assert(s.subrange(0, b) =~= s);
    } else {
        lemma_trim_end_at(s.drop_last(), b);
        assert(s.drop_last().subrange(0, b) =~= s.subrange(0, b));
    }
}

/// Trims surrounding whitespace.
fn trim_str(s: &str) -> (r: String)
    ensures
        r@ == spec_trim(s@),
{
    let n: usize = s.unicode_len();
    let mut a: usize = 0;
    while a < n && ws_char(s.get_char(a))
        invariant
            a <= n,
            n == s@.len(),
            forall|k: int| 0 <= k < a ==> is_ws(s@[k]),
        decreases n - a,
    {
        a = a + 1;
    }
    let mut b: usize = n;
    while b > a && ws_char(s.get_char(b - 1))
        invariant
            a <= b <= n,
            n == s@.len(),
            forall|k: int| b <= k < n ==> is_ws(s@[k]),
        decreases b,
    {
        b = b - 1;
    }
    proof {
        lemma_trim_start_at(s@, a as int);
        let t = s@.subrange(a as int, n as int);
        assert(forall|k: int| (b - a) <= k < t.len() ==> is_ws(t[k]));
        lemma_trim_end_at(t, b - a);
        assert(t.subrange(0, b - a) =~= s@.subrange(a as int, b as int));
    }
    s.substring_char(a, b).to_owned()
}

/// Appending a part appends its cleaned form.
proof fn lemma_clean_tokens_push(parts: Seq<Seq<char>>, x: Seq<char>)
    ensures
        spec_clean_tokens(parts.push(x)) == spec_clean_tokens(parts) + (if spec_trim(x).len() > 0 {
            seq![spec_trim(x)]
        } else {
            Seq::<Seq<char>>::empty()
        }),
    decreases parts.len(),
{
    if parts.len() == 0 {
        assert(parts.push(x).drop_first() =~= Seq::<Seq<char>>::empty());
        assert(parts.push(x)[0] == x);
        assert(spec_clean_tokens(parts.push(x).drop_first()) =~= Seq::<Seq<char>>::empty());
        if spec_trim(x).len() > 0 {
            assert(spec_clean_tokens(parts.push(x)) =~= seq![spec_trim(x)]);
            assert(spec_clean_tokens(parts) + seq![spec_trim(x)] =~= seq![spec_trim(x)]);
        } else {
            assert(spec_clean_tokens(parts.push(x)) =~= Seq::<Seq<char>>::empty());
            assert(spec_clean_tokens(parts) + Seq::<Seq<char>>::empty() =~= Seq::<
                Seq<char>,
            >::empty());
        }
    } else {
        lemma_clean_tokens_push(parts.drop_first(), x);
        assert(parts.push(x).drop_first() =~= parts.drop_first().push(x));
        assert(parts.push(x)[0] == parts[0]);
        let tail = if spec_trim(x).len() > 0 {
            seq![spec_trim(x)]
        } else {
            Seq::<Seq<char>>::empty()
        };
        if spec_trim(parts[0]).len() > 0 {
            assert(seq![spec_trim(parts[0])] + (spec_clean_tokens(parts.drop_first()) + tail)
                =~= (seq![spec_trim(parts[0])] + spec_clean_tokens(parts.drop_first())) + tail);
        }
    }
}

/// Parses a comma-separated transport list: entries split at commas,
/// trimmed of surrounding whitespace, empty entries dropped.
pub fn parse_transport_list(s: &str) -> (r: Vec<String>)
    ensures
        str_views(r@) == spec_transport_list(s@),
{
    let parts = split_commas(s);
    let m: usize = parts.len();
    let mut out: Vec<String> = Vec::new();
    let mut i: usize = 0;
    while i < m
        invariant
            i <= m,
            m == parts@.len(),
            str_views(parts@) == spec_split(s@, ','),
            str_views(out@) =~= spec_clean_tokens(str_views(parts@).subrange(0, i as int)),
        decreases m - i,
    {
        let t = trim_str(parts[i].as_str());
        let ghost prefix = str_views(parts@).subrange(0, i as int);
        proof {
            assert(prefix.push(parts@[i as int]@) =~= str_views(parts@).subrange(0, i + 1));
            lemma_clean_tokens_push(prefix, parts@[i as int]@);
        }
        if !t.as_str().is_empty() {
            let ghost old_out = out@;
            out.push(t);
            assert(str_views(out@) =~= str_views(old_out).push(spec_trim(parts@[i as int]@)));
        }
        i = i + 1;
    }
    proof {
        assert(str_views(parts@).subrange(0, m as int) =~= str_views(parts@));
    }
    out
}

/// The index of the first occurrence of `c` in `s`, or `-1`.
pub open spec fn first_index_of(s: Seq<char>, c: char) -> int
    decreases s.len(),
{
    if s.len() == 0 {
        -1
    } else if s[0] == c {
        0
    } else if first_index_of(s.drop_first(), c) == -1 {
        -1
    } else {
        first_index_of(s.drop_first(), c) + 1
    }
}

/// If everything before `i` differs from `c` and `s[i]` is `c`, then `i` is
/// the first occurrence.
proof fn lemma_first_index_found(s: Seq<char>, c: char, i: int)
    requires
        0 <= i < s.len(),
        s[i] == c,
        forall|k: int| 0 <= k < i ==> s[k] != c,
    ensures
        first_index_of(s, c) == i,
    decreases i,
{
    if i > 0 {
        lemma_first_index_found(s.drop_first(), c, i - 1);
    }
}

/// If `c` occurs nowhere in `s`, there is no first occurrence.
proof fn lemma_first_index_none(s: Seq<char>, c: char)
    requires
        forall|k: int| 0 <= k < s.len() ==> s[k] != c,
    ensures
        first_index_of(s, c) == -1,
    decreases s.len(),
{
    if s.len() > 0 {
        lemma_first_index_none(s.drop_first(), c);
    }
}

/// Deployment parameters of the client role.
#[derive(Debug, Clone)]
pub struct ClientEnv {
    /// The transports the parent process asks for.
    pub transports: Vec<String>,
    /// Directory for any persistent state.
    pub state_location: String,
    /// Optional upstream proxy to traverse.
    pub proxy: Option<String>,
}

impl ClientEnv {
    /// Builds the client parameters from the raw environment values: the
    /// transport list is split at commas, trimmed, and cleared of empty
    /// entries; the other values are taken as they are.
    pub fn from_settings(transports: &str, state_location: String, proxy: Option<String>) -> (r:
        Self)
        ensures
            str_views(r.transports@) == spec_transport_list(transports@),
            r.state_location == state_location,
            r.proxy == proxy,
    {
        ClientEnv { transports: parse_transport_list(transports), state_location, proxy }
    }
}

/// One `name-address` bind specification of the server role.
#[derive(Debug, Clone)]
pub struct BindSpec {
    /// Name of the transport the address is for.
    pub transport: String,
    /// The address text; the process shell parses it into a socket address.
    pub address: String,
}

/// Parses a `name-address` bind specification: the part before the first
/// `-` names the transport, the rest is the address text. A string without
/// `-` is invalid.
pub fn parse_bind_spec(s: &str) -> (r: Result<BindSpec, EnvError>)
    ensures
        first_index_of(s@, '-') == -1 ==> (r matches Err(e) && e == EnvError::InvalidBindSpec),
        first_index_of(s@, '-') >= 0 ==> (r matches Ok(b) && b.transport@ == s@.subrange(
            0,
            first_index_of(s@, '-'),
        ) && b.address@ == s@.subrange(first_index_of(s@, '-') + 1, s@.len() as int)),
{
    let n: usize = s.unicode_len();
    let mut j: usize = 0;
    while j < n && s.get_char(j) != '-'
        invariant
            j <= n,
            n == s@.len(),
            forall|k: int| 0 <= k < j ==> s@[k] != '-',
        decreases n - j,
    {
        j = j + 1;
    }
    if j == n {
        proof {
            lemma_first_index_none(s@, '-');
        }
        return Err(EnvError::InvalidBindSpec);
    }
    proof {
        lemma_first_index_found(s@, '-', j as int);
    }
    let transport = s.substring_char(0, j).to_owned();
    let address = s.substring_char(j + 1, n).to_owned();
    Ok(BindSpec { transport, address })
}

/// Deployment parameters of the server role.
#[derive(Debug, Clone)]
pub struct ServerEnv {
    /// The transports the parent process asks for.
    pub transports: Vec<String>,
    /// The bind specifications, one per announced transport.
    pub bind_addrs: Vec<BindSpec>,
    /// Address text of the backend every stream is bridged to.
    pub orport: String,
    /// Directory for any persistent state.
    pub state_location: String,
}

/// The address text bound to `name`, if any bind specification carries it.
pub open spec fn spec_bind_lookup(bs: Seq<BindSpec>, name: Seq<char>) -> Option<Seq<char>>
    decreases bs.len(),
{
    if bs.len() == 0 {
        None
    } else if bs[0].transport@ == name {
        Some(bs[0].address@)
    } else {
        spec_bind_lookup(bs.drop_first(), name)
    }
}

/// The lookup finds the first specification whose name matches.
proof fn lemma_bind_lookup_found(bs: Seq<BindSpec>, name: Seq<char>, i: int)
    requires
        0 <= i < bs.len(),
        bs[i].transport@ == name,
        forall|k: int| 0 <= k < i ==> (#[trigger] bs[k].transport)@ != name,
    ensures
        spec_bind_lookup(bs, name) == Some(bs[i].address@),
    decreases i,
{
    if i > 0 {
        lemma_bind_lookup_found(bs.drop_first(), name, i - 1);
    }
}

/// The lookup finds nothing when no specification's name matches.
proof fn lemma_bind_lookup_none(bs: Seq<BindSpec>, name: Seq<char>)
    requires
        forall|k: int| 0 <= k < bs.len() ==> (#[trigger] bs[k].transport)@ != name,
    ensures
        spec_bind_lookup(bs, name) is None,
    decreases bs.len(),
{
    if bs.len() > 0 {
        lemma_bind_lookup_none(bs.drop_first(), name);
    }
}

impl ServerEnv {
    /// Builds the server parameters from the raw environment values. The
    /// transport list is parsed as for the client; the bind specification
    /// must carry a `-` or the whole set is invalid.
    pub fn from_settings(
        transports: &str,
        bind_spec: &str,
        orport: String,
        state_location: String,
    ) -> (r: Result<Self, EnvError>)
        ensures
            first_index_of(bind_spec@, '-') == -1 ==> (r matches Err(e) && e
                == EnvError::InvalidBindSpec),
            first_index_of(bind_spec@, '-') >= 0 ==> (r matches Ok(env) && {
                &&& str_views(env.transports@) == spec_transport_list(transports@)
                &&& env.bind_addrs@.len() == 1
                &&& env.bind_addrs@[0].transport@ == bind_spec@.subrange(
                    0,
                    first_index_of(bind_spec@, '-'),
                )
                &&& env.bind_addrs@[0].address@ == bind_spec@.subrange(
                    first_index_of(bind_spec@, '-') + 1,
                    bind_spec@.len() as int,
                )
                &&& env.orport == orport
                &&& env.state_location == state_location
            }),
    {
        let spec = match parse_bind_spec(bind_spec) {
            Ok(b) => b,
            Err(e) => {
                return Err(e);
            },
        };
        let mut bind_addrs: Vec<BindSpec> = Vec::new();
        bind_addrs.push(spec);
        Ok(ServerEnv {
            transports: parse_transport_list(transports),
            bind_addrs,
            orport,
            state_location,
        })
    }

    /// The address text announced for `name`, from the first matching bind
    /// specification.
    pub fn bind_address_for(&self, name: &String) -> (r: Option<String>)
        ensures
            match spec_bind_lookup(self.bind_addrs@, name@) {
                Some(ad) => r matches Some(x) && x@ == ad,
                None => r is None,
            },
    {
        let m: usize = self.bind_addrs.len();
        let mut i: usize = 0;
        while i < m
            invariant
                i <= m,
                m == self.bind_addrs@.len(),
                forall|k: int| 0 <= k < i ==> (#[trigger] self.bind_addrs@[k].transport)@ != name@,
            decreases m - i,
        {
            if self.bind_addrs[i].transport == *name {
                proof {
                    lemma_bind_lookup_found(self.bind_addrs@, name@, i as int);
                }
                return Some(self.bind_addrs[i].address.as_str().to_owned());
            }
            i = i + 1;
        }
        proof {
            lemma_bind_lookup_none(self.bind_addrs@, name@);
        }
        None
    }
}

/// The readiness line announcing the control-protocol version.
pub fn version_line() -> (r: String)
    ensures
        r@ == "VERSION "@ + PT_VERSION@,
{
    let mut out = "VERSION ".to_owned();
    out.append(PT_VERSION);
    out
}

/// The client readiness line announcing the local proxy endpoint.
pub fn cmethod_line(proxy_addr: &str) -> (r: String)
    ensures
        r@ == "CMETHOD "@ + TRANSPORT_NAME@ + " socks5 "@ + proxy_addr@,
{
    let mut out = "CMETHOD ".to_owned();
    out.append(TRANSPORT_NAME);
    out.append(" socks5 ");
    out.append(proxy_addr);
    out
}

/// The client readiness terminator.
pub fn cmethods_done_line() -> (r: String)
    ensures
        r@ == "CMETHODS DONE"@,
{
    "CMETHODS DONE".to_owned()
}

/// The server readiness line announcing the bind address.
pub fn smethod_line(bind_addr: &str) -> (r: String)
    ensures
        r@ == "SMETHOD "@ + TRANSPORT_NAME@ + " "@ + bind_addr@,
{
    let mut out = "SMETHOD ".to_owned();
    out.append(TRANSPORT_NAME);
    out.append(" ");
    out.append(bind_addr);
    out
}

/// The server readiness terminator.
pub fn smethods_done_line() -> (r: String)
    ensures
        r@ == "SMETHODS DONE"@,
{
    "SMETHODS DONE".to_owned()
}

} // verus!
