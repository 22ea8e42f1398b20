//! NVMe-oF target URIs: how the HA node agent takes a path apart into host,
//! port and NQN, and how it matches NVMe subsystems against it.
use vstd::prelude::*;
use vstd::std_specs::cmp::PartialEqSpecImpl;

verus! {

/// Kind of resource an error is about.
#[derive(Debug, Clone, Copy, PartialEq, Eq, Structural)]
pub enum ResourceKind {
    Unknown,
    Node,
    Nexus,
    Volume,
}

/// Errors of the HA node agent's services.
#[derive(Debug)]
pub enum SvcError {
    NotFound { kind: ResourceKind, id: String },
    InvalidArguments,
    GrpcUdsConnect { path: String, source: String },
    Internal { details: String },
    SubsystemNotFound { nqn: String },
}

/// The mathematical value of an `SvcError`.
pub enum SvcErrorView {
    NotFound { kind: ResourceKind, id: Seq<char> },
    InvalidArguments,
    GrpcUdsConnect { path: Seq<char>, source: Seq<char> },
    Internal { details: Seq<char> },
    SubsystemNotFound { nqn: Seq<char> },
}

impl DeepView for SvcError {
    type V = SvcErrorView;

    open spec fn deep_view(&self) -> SvcErrorView {
        match self {
            SvcError::NotFound { kind, id } => SvcErrorView::NotFound { kind: *kind, id: id@ },
            SvcError::InvalidArguments => SvcErrorView::InvalidArguments,
            SvcError::GrpcUdsConnect { path, source } => SvcErrorView::GrpcUdsConnect {
                path: path@,
                source: source@,
            },
            SvcError::Internal { details } => SvcErrorView::Internal { details: details@ },
            SvcError::SubsystemNotFound { nqn } => SvcErrorView::SubsystemNotFound { nqn: nqn@ },
        }
    }
}

/// What the `http` crate's URI parser makes of a text: `None` where it rejects
/// the text, else the host and port (as text) when the URI has an authority that
/// names them, and the path.
pub uninterp spec fn uri_components(text: Seq<char>) -> Option<
    (Option<Seq<char>>, Option<Seq<char>>, Seq<char>),
>;

/// The parts of a parsed URI.
pub struct UriComponents {
    /// Host of the authority, if any.
    pub host: Option<String>,
    /// Port of the authority, as text, if any.
    pub port: Option<String>,
    /// Path of the URI.
    pub path: String,
}

/// The view of an optional string.
pub open spec fn opt_view(s: Option<String>) -> Option<Seq<char>> {
    match s {
        Some(x) => Some(x@),
        None => None,
    }
}

impl UriComponents {
    /// The components as plain values.
    pub open spec fn spec_parts(self) -> (Option<Seq<char>>, Option<Seq<char>>, Seq<char>) {
        (opt_view(self.host), opt_view(self.port), self.path@)
    }
}

/// Parses `text` with `http::Uri`'s `FromStr` and takes the parsed URI apart
/// with `Uri::host`, `Uri::port` (shown with its `Display`) and `Uri::path`.
/// The contract claims only that the parts are the named function
/// `uri_components` of the text; what that function is, is left unsaid.
#[verifier::external_body]
fn parse_uri_components(text: &str) -> (r: Option<UriComponents>)
    ensures
        uri_components(text@) == match r {
            Some(c) => Some(c.spec_parts()),
            None => None,
        },
{
    match text.parse::<http::Uri>() {
        Ok(uri) => {
            let host = match uri.host() {
                Some(h) => Some(h.to_string()),
                None => None,
            };
            let port = match uri.port() {
                Some(p) => Some(p.to_string()),
                None => None,
            };
            Some(UriComponents { host, port, path: uri.path().to_string() })
        },
        Err(_) => None,
    }
}

/// Whether the path can lose its first byte: it is not empty and its first
/// character is a single byte.
pub open spec fn path_sliceable(path: Seq<char>) -> bool {
    path.len() > 0 && (path[0] as u32) < 0x80
}

/// What taking a URI apart gives: an invalid-arguments error when the text is
/// no URI or names no host or no port, else the host, the port and the path
/// without its leading character as the NQN. `None` where the path cannot lose
/// its first byte.
pub open spec fn parse_outcome(
    c: Option<(Option<Seq<char>>, Option<Seq<char>>, Seq<char>)>,
) -> Option<Result<(Seq<char>, Seq<char>, Seq<char>), SvcErrorView>> {
    match c {
        None => Some(Err(SvcErrorView::InvalidArguments)),
        Some((host, port, path)) => match host {
            None => Some(Err(SvcErrorView::InvalidArguments)),
            Some(h) => match port {
                None => Some(Err(SvcErrorView::InvalidArguments)),
                Some(p) => if path_sliceable(path) {
                    Some(Ok((h, p, path.drop_first())))
                } else {
                    None
                },
            },
        },
    }
}

/// Host, port, and NQN of a target path.
#[derive(Debug)]
pub struct ParsedUri {
    host: String,
    port: String,
    nqn: String,
}

impl ParsedUri {
    /// Host, port and NQN as plain values.
    pub closed spec fn spec_parts(self) -> (Seq<char>, Seq<char>, Seq<char>) {
        (self.host@, self.port@, self.nqn@)
    }

    /// A parsed URI from its parts.
    pub fn new(host: String, port: String, nqn: String) -> (r: ParsedUri)
        ensures
            r.spec_parts() == (host@, port@, nqn@),
    {
        Self { host, port, nqn }
    }

    /// The host.
    pub fn host(&self) -> (r: String)
        ensures
            r@ == self.spec_parts().0,
    {
        self.host.clone()
    }

    /// The port.
    pub fn port(&self) -> (r: String)
        ensures
            r@ == self.spec_parts().1,
    {
        self.port.clone()
    }

    /// The NQN.
    pub fn nqn(&self) -> (r: String)
        ensures
            r@ == self.spec_parts().2,
    {
        self.nqn.clone()
    }
}

/// The result of parsing, as plain values.
pub open spec fn parsed_view(r: Result<ParsedUri, SvcError>) -> Result<
    (Seq<char>, Seq<char>, Seq<char>),
    SvcErrorView,
> {
    match r {
        Ok(p) => Ok(p.spec_parts()),
        Err(e) => Err(e.deep_view()),
    }
}

/// Whether `parse_outcome` has a result for the components.
pub open spec fn outcome_defined(c: Option<UriComponents>) -> bool {
    parse_outcome(
        match c {
            Some(x) => Some(x.spec_parts()),
            None => None,
        },
    ) is Some
}

/// Builds the parsed URI from a URI's components: the host, the port, and the
/// path without its leading `/` as the NQN.
pub fn parsed_uri_from_components(c: Option<UriComponents>) -> (r: Result<ParsedUri, SvcError>)
    requires
        outcome_defined(c),
    ensures
        Some(parsed_view(r)) == parse_outcome(
            match c {
                Some(x) => Some(x.spec_parts()),
                None => None,
            },
        ),
{
    match c {
        None => Err(SvcError::InvalidArguments),
        Some(parts) => match parts.host {
            None => Err(SvcError::InvalidArguments),
            Some(host) => match parts.port {
                None => Err(SvcError::InvalidArguments),
                Some(port) => {
                    let path = parts.path.as_str();
                    let len = path.unicode_len();
                    let nqn = path.substring_char(1, len);
                    Ok(ParsedUri::new(host, port, String::from_str(nqn)))
                },
            },
        },
    }
}

/// Returns the host, port, nqn respectively from the path after parsing.
/// `None` where the URI names a host and a port but its path cannot lose its
/// first byte (an authority with no path, such as `host:4420`).
pub fn parse_uri(new_path: &str) -> (r: Option<Result<ParsedUri, SvcError>>)
    ensures
        match r {
            Some(res) => parse_outcome(uri_components(new_path@)) == Some(parsed_view(res)),
            None => parse_outcome(uri_components(new_path@)) is None,
        },
{
    let c = parse_uri_components(new_path);
    let defined = match &c {
        Some(parts) => {
            if parts.host.is_some() && parts.port.is_some() {
                let path = parts.path.as_str();
                let len = path.unicode_len();
                if len == 0 {
                    false
                } else {
                    let first = path.get_char(0);
                    (first as u32) < 0x80
                }
            } else {
                true
            }
        },
        None => true,
    };
    if defined {
        Some(parsed_uri_from_components(c))
    } else {
        None
    }
}

/// The address under which the NVMe subsystem of a host and port is known.
pub open spec fn subsystem_address(host: Seq<char>, port: Seq<char>) -> Seq<char> {
    "traddr="@ + host + ",trsvcid="@ + port
}

/// Address of an NVMe subsystem.
#[derive(Debug)]
pub struct SubsystemAddr(String);

impl SubsystemAddr {
    /// The address as text.
    pub closed spec fn spec_value(self) -> Seq<char> {
        self.0@
    }

    /// The address of the subsystem at the given host and port.
    pub fn new(host: String, port: String) -> (r: SubsystemAddr)
        ensures
            r.spec_value() == subsystem_address(host@, port@),
    {
        let mut s = String::from_str("traddr=");
        s.append(host.as_str());
        s.append(",trsvcid=");
        s.append(port.as_str());
        SubsystemAddr(s)
    }

    /// The address as text.
    pub fn string_value(&self) -> (r: String)
        ensures
            r@ == self.spec_value(),
    {
        self.0.clone()
    }

    /// Whether the address equals the given text.
    pub fn eq_string(&self, other: &String) -> (r: bool)
        ensures
            r == (self.spec_value() == other@),
    {
        self.string_value() == *other
    }
}

// For SubsystemAddr == String comparisons
impl PartialEq<String> for SubsystemAddr {
    fn eq(&self, other: &String) -> (r: bool) {
        self.eq_string(other)
    }
}

impl PartialEqSpecImpl<String> for SubsystemAddr {
    open spec fn obeys_eq_spec() -> bool {
        true
    }

    open spec fn eq_spec(&self, other: &String) -> bool {
        self.spec_value() == other@
    }
}

// For String == SubsystemAddr comparisons
impl PartialEq<SubsystemAddr> for String {
    fn eq(&self, other: &SubsystemAddr) -> (r: bool) {
        *self == other.string_value()
    }
}

impl PartialEqSpecImpl<SubsystemAddr> for String {
    open spec fn obeys_eq_spec() -> bool {
        true
    }

    open spec fn eq_spec(&self, other: &SubsystemAddr) -> bool {
        self@ == other.spec_value()
    }
}

/// An NVMe subsystem on the host: its NQN and its address.
#[derive(Debug)]
pub struct SubsystemInfo {
    /// NQN of the subsystem.
    pub nqn: String,
    /// Address of the subsystem.
    pub address: String,
}

/// Whether a subsystem has the given NQN and the address of the given host and port.
pub open spec fn subsystem_matches(
    s: (Seq<char>, Seq<char>),
    parsed: (Seq<char>, Seq<char>, Seq<char>),
) -> bool {
    s.0 == parsed.2 && s.1 == subsystem_address(parsed.0, parsed.1)
}

/// The subsystems as plain values.
pub open spec fn subsystems_view(list: Seq<SubsystemInfo>) -> Seq<(Seq<char>, Seq<char>)> {
    list.map_values(|s: SubsystemInfo| (s.nqn@, s.address@))
}

/// Index of the first subsystem that matches.
pub open spec fn first_match(
    list: Seq<(Seq<char>, Seq<char>)>,
    parsed: (Seq<char>, Seq<char>, Seq<char>),
) -> Option<int>
    decreases list.len(),
{
    if list.len() == 0 {
        None
    } else if subsystem_matches(list[0], parsed) {
        Some(0)
    } else {
        match first_match(list.drop_first(), parsed) {
            Some(i) => Some(i + 1),
            None => None,
        }
    }
}

/// `first_match` finds the first matching index, or none when nothing matches.
pub proof fn lemma_first_match(
    list: Seq<(Seq<char>, Seq<char>)>,
    parsed: (Seq<char>, Seq<char>, Seq<char>),
    i: int,
)
    requires
        0 <= i <= list.len(),
        forall|j: int| 0 <= j < i ==> !subsystem_matches(#[trigger] list[j], parsed),
        i < list.len() ==> subsystem_matches(list[i], parsed),
    ensures
        first_match(list, parsed) == if i < list.len() {
            Some(i)
        } else {
            None::<int>
        },
    decreases i,
{
    if i > 0 {
        let rest = list.drop_first();
        assert forall|j: int| 0 <= j < i - 1 implies !subsystem_matches(#[trigger] rest[j], parsed) by {
            assert(rest[j] == list[j + 1]);
        }
        if i < list.len() {
            assert(rest[i - 1] == list[i]);
        }
        lemma_first_match(rest, parsed, i - 1);
        assert(!subsystem_matches(list[0], parsed));
    }
}

/// The error of a subsystem that is not found.
pub fn subsystem_not_found(parsed: &ParsedUri) -> (e: SvcError)
    ensures
        e.deep_view() == (SvcErrorView::SubsystemNotFound { nqn: parsed.spec_parts().2 }),
{
    SvcError::SubsystemNotFound { nqn: parsed.nqn() }
}

/// Returns the position of the subsystem with the NQN and the address of the
/// parsed URI: the first one, if several.
pub fn get_subsystem(parsed: &ParsedUri, subsystems: &Vec<SubsystemInfo>) -> (r: Result<
    usize,
    SvcError,
>)
    ensures
        match r {
            Ok(i) => first_match(subsystems_view(subsystems@), parsed.spec_parts()) == Some(
                i as int,
            ),
            Err(e) => first_match(subsystems_view(subsystems@), parsed.spec_parts()) is None
                && e.deep_view() == (SvcErrorView::SubsystemNotFound {
                nqn: parsed.spec_parts().2,
            }),
        },
{
    let ghost view = subsystems_view(subsystems@);
    let address = SubsystemAddr::new(parsed.host(), parsed.port());
    let nqn = parsed.nqn();
    let mut i: usize = 0;
    while i < subsystems.len()
        invariant
            i <= subsystems@.len(),
            view == subsystems_view(subsystems@),
            address.spec_value() == subsystem_address(parsed.spec_parts().0, parsed.spec_parts().1),
            nqn@ == parsed.spec_parts().2,
            forall|j: int| 0 <= j < i ==> !subsystem_matches(#[trigger] view[j], parsed.spec_parts()),
        decreases subsystems@.len() - i,
    {
        let s = &subsystems[i];
        assert(view[i as int] == (s.nqn@, s.address@));
        if s.nqn == nqn && s.address == address {
            proof {
                lemma_first_match(view, parsed.spec_parts(), i as int);
            }
            return Ok(i);
        }
        i = i + 1;
    }
    proof {
        lemma_first_match(view, parsed.spec_parts(), i as int);
    }
    Err(subsystem_not_found(parsed))
}

/// A URI with a host, a port and a path starting with "/" is taken apart into
/// that host, that port, and the rest of the path after the "/" as the NQN; a text
/// that is no URI, or names no host, or no port, is an invalid argument.
pub proof fn law_parse_outcome(
    host: Seq<char>,
    port: Seq<char>,
    path: Seq<char>,
    c: Option<(Option<Seq<char>>, Option<Seq<char>>, Seq<char>)>,
)
    ensures
        path.len() > 0 && path[0] == '/' ==> (parse_outcome(Some((Some(host), Some(port), path)))
            matches Some(Ok((h, p, nqn))) && h == host && p == port && seq!['/'] + nqn == path),
        parse_outcome(None) == Some(Err::<(Seq<char>, Seq<char>, Seq<char>), SvcErrorView>(
            SvcErrorView::InvalidArguments,
        )),
        c matches Some((h, p, _)) && (h is None || p is None) ==> parse_outcome(c) == Some(
            Err::<(Seq<char>, Seq<char>, Seq<char>), SvcErrorView>(SvcErrorView::InvalidArguments),
        ),
        path.len() == 0 ==> parse_outcome(Some((Some(host), Some(port), path))) is None,
{
    if path.len() > 0 && path[0] == '/' {
        assert(seq!['/'] + path.drop_first() =~= path);
    }
}

/// A subsystem at host h and port p has the address "traddr=h,trsvcid=p".
pub proof fn law_subsystem_address(host: Seq<char>, port: Seq<char>)
    ensures
        subsystem_address(host, port) == "traddr="@ + host + ",trsvcid="@ + port,
{
}

/// The subsystem found is the first one with the NQN and the address of the
/// parsed URI; none is found when no subsystem has both.
pub proof fn law_first_match(
    list: Seq<(Seq<char>, Seq<char>)>,
    parsed: (Seq<char>, Seq<char>, Seq<char>),
)
    ensures
        first_match(list, parsed) matches Some(i) ==> 0 <= i < list.len() && list[i].0 == parsed.2
            && list[i].1 == "traddr="@ + parsed.0 + ",trsvcid="@ + parsed.1 && forall|j: int|
            0 <= j < i ==> !(#[trigger] list[j].0 == parsed.2 && list[j].1 == "traddr="@ + parsed.0
                + ",trsvcid="@ + parsed.1),
        first_match(list, parsed) is None ==> forall|j: int|
            0 <= j < list.len() ==> !(#[trigger] list[j].0 == parsed.2 && list[j].1 == "traddr="@
                + parsed.0 + ",trsvcid="@ + parsed.1),
    decreases list.len(),
{
    if list.len() > 0 {
        let rest = list.drop_first();
        law_first_match(rest, parsed);
        if !subsystem_matches(list[0], parsed) {
            assert forall|j: int| 0 < j < list.len() implies list[j] == rest[j - 1] by {}
        }
    }
}

} // verus!
