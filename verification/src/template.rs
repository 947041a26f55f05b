//! The configuration template: its base ports, the ports and names of one
//! stack, and the rendering of a stack's configuration file.

use vstd::prelude::*;
use vstd::string::StringExecFns;
use crate::errors::{Invalid, PortKey, StackError};
use crate::text::{
    ascii, before, blank, bytes_eq, decimal_digits, decimal_number, decimal_text, head, is_blank,
    join, join_lines, lemma_decimal_digits_value, lines, literal, parse_decimal, push_bytes,
    push_decimal, split_lines, to_vec, view_of, views,
};

verus! {

/// Each stack's ports lie this far above those of the stack before it.
pub const INCREMENT: i64 = 3;

/// The number sign that opens a comment line.
pub const HASH: u8 = 35;

/// The equals sign between a key and its value.
pub const EQUALS: u8 = 61;

/// The three base ports of the configuration template.
#[derive(Clone, Copy, Debug, PartialEq, Eq, Structural)]
pub struct EnvConfig {
    pub server_port: i32,
    pub rcon_port: i32,
    pub sftp_port: i32,
}

/// The three ports of one stack.
#[derive(Clone, Copy, Debug, PartialEq, Eq, Structural)]
pub struct Ports {
    pub server: i64,
    pub rcon: i64,
    pub sftp: i64,
}

/// The port of a service in stack `id`, given the service's base port.
pub open spec fn port_of(base: int, id: int) -> int {
    base + id * INCREMENT
}

/// The ports of stack `id`.
pub open spec fn ports_of(template: EnvConfig, id: int) -> Ports {
    Ports {
        server: port_of(template.server_port as int, id) as i64,
        rcon: port_of(template.rcon_port as int, id) as i64,
        sftp: port_of(template.sftp_port as int, id) as i64,
    }
}

/// Computes the ports of stack `id`: each base port plus three times the
/// identifier. An identifier below 1 is refused.
pub fn compute_ports(template: &EnvConfig, id: i32) -> (r: Result<Ports, StackError>)
    ensures
        r is Ok <==> id > 0,
        r matches Ok(p) ==> {
            &&& p == ports_of(*template, id as int)
            &&& p.server == port_of(template.server_port as int, id as int)
            &&& p.rcon == port_of(template.rcon_port as int, id as int)
            &&& p.sftp == port_of(template.sftp_port as int, id as int)
        },
        r matches Err(e) ==> e == StackError::ValidationError(Invalid::NonPositiveId(id)),
{
    if id <= 0 {
        return Err(StackError::ValidationError(Invalid::NonPositiveId(id)));
    }
    let step: i64 = id as i64 * INCREMENT;
    Ok(
        Ports {
            server: template.server_port as i64 + step,
            rcon: template.rcon_port as i64 + step,
            sftp: template.sftp_port as i64 + step,
        },
    )
}

impl PortKey {
    /// The key as the template writes it.
    pub open spec fn name(self) -> Seq<char> {
        match self {
            PortKey::Server => "SERVER_PORT"@,
            PortKey::Rcon => "RCON_PORT"@,
            PortKey::Sftp => "SFTP_SERVER_PORT"@,
        }
    }

    /// The key as the template writes it.
    pub fn as_str(&self) -> (r: &'static str)
        ensures
            r@ == self.name(),
    {
        match self {
            PortKey::Server => "SERVER_PORT",
            PortKey::Rcon => "RCON_PORT",
            PortKey::Sftp => "SFTP_SERVER_PORT",
        }
    }
}

/// `regex::Error`: what the regex crate returns for a pattern that it refuses.
/// Nothing is known of its contents.
#[verifier::external_type_specification]
#[verifier::external_body]
pub struct ExRegexError(regex::Error);

/// Whether `regex::bytes::Regex::new` compiles `pattern`.
pub uninterp spec fn regex_accepts(pattern: Seq<char>) -> bool;

/// What the capture group `group` holds in the leftmost match of `pattern` in
/// `haystack`, as `regex::bytes::Regex::captures` finds it: `None` where the
/// pattern does not match, has no such group, or the group takes no part in
/// the match.
pub uninterp spec fn regex_group(pattern: Seq<char>, haystack: Seq<u8>, group: nat) -> Option<Seq<u8>>;

/// Compiles `pattern` with `regex::bytes::Regex::new`, searches `haystack`
/// with `Regex::captures`, and hands out a copy of what `Captures::get` gives
/// for the capture group `group`.
///
/// Trusted: that the compilation succeeds exactly on the patterns of
/// `regex_accepts`, and that the bytes handed out are those of `regex_group`.
/// Both only give names to what the regex crate computes from its arguments;
/// nothing is claimed of how it matches.
#[verifier::external_body]
fn capture_group(pattern: &str, haystack: &[u8], group: usize) -> (r: Result<
    Option<Vec<u8>>,
    regex::Error,
>)
    ensures
        r is Ok <==> regex_accepts(pattern@),
        r matches Ok(found) ==> view_of(found) == regex_group(pattern@, haystack@, group as nat),
{
    let compiled = regex::bytes::Regex::new(pattern)?;
    match compiled.captures(haystack) {
        Some(groups) => Ok(groups.get(group).map(|m| m.as_bytes().to_vec())),
        None => Ok(None),
    }
}

/// The pattern that finds the line setting `key` to a number: the key at the
/// start of the line, an equals sign, and a run of digits as capture group 1.
pub open spec fn pattern_for(key: Seq<char>) -> Seq<char> {
    "^"@ + key + "=(\\d+)"@
}

/// Builds the pattern that finds the line setting `key` to a number.
pub fn port_pattern(key: &str) -> (r: String)
    ensures
        r@ == pattern_for(key@),
{
    let mut pattern = String::from_str("^");
    pattern.append(key);
    pattern.append("=(\\d+)");
    pattern
}

/// What capture group 1 of `pattern` holds on the first of `ls` where it holds
/// anything. A pattern that the regex crate refuses matches nothing.
pub open spec fn first_capture(pattern: Seq<char>, ls: Seq<Seq<u8>>) -> Option<Seq<u8>>
    decreases ls.len(),
{
    if ls.len() == 0 || !regex_accepts(pattern) {
        None
    } else if regex_group(pattern, ls[0], 1) is Some {
        regex_group(pattern, ls[0], 1)
    } else {
        first_capture(pattern, ls.skip(1))
    }
}

/// The base port that the lines `ls` give for `key`: the number captured on
/// the first line that the key's pattern matches, if it fits in an `i32`.
pub open spec fn port_in(ls: Seq<Seq<u8>>, key: PortKey) -> Option<i32> {
    match first_capture(pattern_for(key.name()), ls) {
        Some(digits) => decimal_number(digits),
        None => None,
    }
}

/// Finds the base port that the lines give for `key`.
pub fn find_port(ls: &Vec<Vec<u8>>, key: PortKey) -> (r: Option<i32>)
    ensures
        r == port_in(views(ls@), key),
{
    let pattern = port_pattern(key.as_str());
    let mut i: usize = 0;
    assert(views(ls@).skip(0) =~= views(ls@));
    while i < ls.len()
        invariant
            0 <= i <= ls.len(),
            pattern@ == pattern_for(key.name()),
            first_capture(pattern@, views(ls@)) == first_capture(pattern@, views(ls@).skip(i as int)),
        decreases ls.len() - i,
    {
        let ghost rest = views(ls@).skip(i as int);
        match capture_group(pattern.as_str(), ls[i].as_slice(), 1) {
            Err(_) => {
                return None;
            },
            Ok(Some(digits)) => {
                return parse_decimal(digits.as_slice());
            },
            Ok(None) => {
                assert(rest.skip(1) =~= views(ls@).skip(i as int + 1));
                i = i + 1;
            },
        }
    }
    None
}

/// The base ports that the template text gives, or the first of the three keys
/// for which it gives none.
pub open spec fn read_template(template: Seq<u8>) -> Result<EnvConfig, StackError> {
    let ls = lines(template);
    match (port_in(ls, PortKey::Server), port_in(ls, PortKey::Rcon), port_in(ls, PortKey::Sftp)) {
        (Some(server_port), Some(rcon_port), Some(sftp_port)) => Ok(
            EnvConfig { server_port, rcon_port, sftp_port },
        ),
        (None, _, _) => Err(StackError::ValidationError(Invalid::MissingPortKey(PortKey::Server))),
        (_, None, _) => Err(StackError::ValidationError(Invalid::MissingPortKey(PortKey::Rcon))),
        (_, _, None) => Err(StackError::ValidationError(Invalid::MissingPortKey(PortKey::Sftp))),
    }
}

/// Reads the three base ports from the template text. Each must stand on a
/// line of its own, as `KEY=` followed by digits, with the key at the start of
/// the line; the first such line counts.
pub fn parse_env_template(template: &[u8]) -> (r: Result<EnvConfig, StackError>)
    ensures
        r == read_template(template@),
{
    let ls = split_lines(template);
    let server_port = match find_port(&ls, PortKey::Server) {
        Some(port) => port,
        None => {
            return Err(StackError::ValidationError(Invalid::MissingPortKey(PortKey::Server)));
        },
    };
    let rcon_port = match find_port(&ls, PortKey::Rcon) {
        Some(port) => port,
        None => {
            return Err(StackError::ValidationError(Invalid::MissingPortKey(PortKey::Rcon)));
        },
    };
    let sftp_port = match find_port(&ls, PortKey::Sftp) {
        Some(port) => port,
        None => {
            return Err(StackError::ValidationError(Invalid::MissingPortKey(PortKey::Sftp)));
        },
    };
    Ok(EnvConfig { server_port, rcon_port, sftp_port })
}

/// The name of the game server's container, volume and network in stack `id`.
pub open spec fn server_name(id: int) -> Seq<u8> {
    ascii("minecraft_server_") + decimal_text(id)
}

/// The name of the file-transfer container in stack `id`.
pub open spec fn sftp_name(id: int) -> Seq<u8> {
    ascii("sftp_server_") + decimal_text(id)
}

/// No two stacks share a container name: the names of the game servers of two
/// stacks differ, so do those of their file-transfer services, and no game
/// server bears the name of a file-transfer service.
pub proof fn lemma_container_names_differ(i: int, j: int)
    requires
        0 < i,
        0 < j,
    ensures
        i != j ==> server_name(i) != server_name(j),
        i != j ==> sftp_name(i) != sftp_name(j),
        server_name(i) != sftp_name(j),
{
    reveal_strlit("minecraft_server_");
    reveal_strlit("sftp_server_");
    lemma_decimal_digits_value(i as nat);
    lemma_decimal_digits_value(j as nat);
    let a = decimal_digits(i as nat);
    let b = decimal_digits(j as nat);
    assert(server_name(i).skip(17) =~= a);
    assert(server_name(j).skip(17) =~= b);
    assert(sftp_name(i).skip(12) =~= a);
    assert(sftp_name(j).skip(12) =~= b);
}

/// Builds the name of the game server's container in stack `id`. Its volume
/// and its network bear the same name.
pub fn server_container_name(id: i32) -> (r: Vec<u8>)
    ensures
        r@ == server_name(id as int),
{
    proof {
        reveal_strlit("minecraft_server_");
    }
    let mut out = to_vec(literal("minecraft_server_"));
    push_decimal(&mut out, id as i64);
    out
}

/// Builds the name of the file-transfer container in stack `id`.
pub fn sftp_container_name(id: i32) -> (r: Vec<u8>)
    ensures
        r@ == sftp_name(id as int),
{
    proof {
        reveal_strlit("sftp_server_");
    }
    let mut out = to_vec(literal("sftp_server_"));
    push_decimal(&mut out, id as i64);
    out
}

/// The value that a stack's configuration gives to `key`, for the seven keys
/// that it sets: the three ports, the three names of the game server (service,
/// volume, network) and the name of the file-transfer service.
pub open spec fn config_value(key: Seq<u8>, id: int, ports: Ports) -> Option<Seq<u8>> {
    if key == ascii("SERVER_PORT") {
        Some(decimal_text(ports.server as int))
    } else if key == ascii("RCON_PORT") {
        Some(decimal_text(ports.rcon as int))
    } else if key == ascii("SFTP_SERVER_PORT") {
        Some(decimal_text(ports.sftp as int))
    } else if key == ascii("MINECRAFT_SERVER_SERVICE") || key == ascii("MINECRAFT_SERVER_VOLUME")
        || key == ascii("MINECRAFT_SERVER_NETWORK") {
        Some(server_name(id))
    } else if key == ascii("SFTP_SERVER_SERVICE") {
        Some(sftp_name(id))
    } else {
        None
    }
}

/// Computes the value that a stack's configuration gives to `key`.
pub fn value_for(key: &[u8], id: i32, ports: &Ports) -> (r: Option<Vec<u8>>)
    ensures
        view_of(r) == config_value(key@, id as int, *ports),
{
    proof {
        reveal_strlit("SERVER_PORT");
        reveal_strlit("RCON_PORT");
        reveal_strlit("SFTP_SERVER_PORT");
        reveal_strlit("MINECRAFT_SERVER_SERVICE");
        reveal_strlit("MINECRAFT_SERVER_VOLUME");
        reveal_strlit("MINECRAFT_SERVER_NETWORK");
        reveal_strlit("SFTP_SERVER_SERVICE");
    }
    if bytes_eq(key, literal("SERVER_PORT")) {
        let mut out: Vec<u8> = Vec::new();
        push_decimal(&mut out, ports.server);
        Some(out)
    } else if bytes_eq(key, literal("RCON_PORT")) {
        let mut out: Vec<u8> = Vec::new();
        push_decimal(&mut out, ports.rcon);
        Some(out)
    } else if bytes_eq(key, literal("SFTP_SERVER_PORT")) {
        let mut out: Vec<u8> = Vec::new();
        push_decimal(&mut out, ports.sftp);
        Some(out)
    } else if bytes_eq(key, literal("MINECRAFT_SERVER_SERVICE")) || bytes_eq(
        key,
        literal("MINECRAFT_SERVER_VOLUME"),
    ) || bytes_eq(key, literal("MINECRAFT_SERVER_NETWORK")) {
        Some(server_container_name(id))
    } else if bytes_eq(key, literal("SFTP_SERVER_SERVICE")) {
        Some(sftp_container_name(id))
    } else {
        None
    }
}

/// One line of a stack's configuration. A comment line (one that starts with
/// `#`) and a blank line stand as they are. On any other line the key is what
/// precedes the first equals sign; where the configuration sets that key the
/// line becomes the key, an equals sign and the value, and otherwise it stands
/// as it is.
pub open spec fn rendered_line(line: Seq<u8>, id: int, ports: Ports) -> Seq<u8> {
    if (line.len() > 0 && line[0] == HASH) || is_blank(line) {
        line
    } else {
        match config_value(before(line, EQUALS), id, ports) {
            Some(value) => before(line, EQUALS) + seq![EQUALS] + value,
            None => line,
        }
    }
}

/// Renders one line of a stack's configuration.
pub fn render_line(line: &[u8], id: i32, ports: &Ports) -> (r: Vec<u8>)
    ensures
        r@ == rendered_line(line@, id as int, *ports),
{
    if (line.len() > 0 && line[0] == HASH) || blank(line) {
        return to_vec(line);
    }
    let key = head(line, EQUALS);
    match value_for(key, id, ports) {
        Some(value) => {
            let mut out = to_vec(key);
            out.push(EQUALS);
            push_bytes(&mut out, value.as_slice());
            out
        },
        None => to_vec(line),
    }
}

/// The configuration of stack `id`: the template's lines, each rendered, joined
/// by line feeds.
pub open spec fn rendered_config(template: Seq<u8>, id: int, ports: Ports) -> Seq<u8> {
    join_lines(
        Seq::new(lines(template).len(), |i: int| rendered_line(lines(template)[i], id, ports)),
    )
}

/// Renders the configuration file of stack `id` from the template text.
pub fn render_config(template: &[u8], id: i32, ports: &Ports) -> (r: Vec<u8>)
    ensures
        r@ == rendered_config(template@, id as int, *ports),
{
    let ls = split_lines(template);
    let mut out: Vec<Vec<u8>> = Vec::new();
    let mut i: usize = 0;
    while i < ls.len()
        invariant
            0 <= i <= ls.len(),
            views(ls@) == lines(template@),
            out@.len() == i,
            forall|j: int|
                0 <= j < i ==> (#[trigger] out@[j])@ == rendered_line(
                    lines(template@)[j],
                    id as int,
                    *ports,
                ),
        decreases ls.len() - i,
    {
        let line = render_line(ls[i].as_slice(), id, ports);
        out.push(line);
        i = i + 1;
    }
    assert(views(out@) =~= Seq::new(
        lines(template@).len(),
        |i: int| rendered_line(lines(template@)[i], id as int, *ports),
    ));
    join(&out)
}

/// Renders the compose manifest of a stack: the template, byte for byte. The
/// manifest names its services through the configuration file.
pub fn render_manifest(template: &[u8]) -> (r: Vec<u8>)
    ensures
        r@ == template@,
{
    to_vec(template)
}

} // verus!
