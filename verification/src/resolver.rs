//! Resolution of one domain: which server to ask, and what a failed
//! query means.

use vstd::prelude::*;
use rdap_client::bootstrap::Dns;
use crate::error::KnockKnockError;
use crate::record::RegistrationRecord;
use crate::utils::texts;

verus! {

/// The bootstrap registry for domain names, kept by `rdap_client`: a table
/// from domain suffixes to the servers that answer for them.
#[verifier::external_type_specification]
#[verifier::external_body]
pub struct ExDns(Dns);

/// What a registry holds: for each suffix it covers, the servers listed
/// for that suffix, in their order.
pub uninterp spec fn dns_entries(registry: Dns) -> Map<Seq<char>, Seq<Seq<char>>>;

/// Whether a label of `name` starts at `start`: at the front, or right
/// behind a dot. The end of a name that closes with a dot counts.
pub open spec fn label_start(name: Seq<char>, start: int) -> bool {
    0 <= start <= name.len() && (start == 0 || name[start - 1] == '.')
}

/// Whether the registry covers `name`: the name itself, or what is left
/// of it from a later label on, is one of its suffixes.
pub open spec fn covers(entries: Map<Seq<char>, Seq<Seq<char>>>, name: Seq<char>) -> bool {
    exists|start: int| label_start(name, start) && #[trigger] entries.contains_key(name.skip(start))
}

/// The servers of the longest suffix of `name`, from `start` on, that the
/// registry holds.
pub open spec fn servers_from(
    entries: Map<Seq<char>, Seq<Seq<char>>>,
    name: Seq<char>,
    start: int,
) -> Option<Seq<Seq<char>>>
    decreases name.len() + 1 - start,
{
    if start < 0 || start > name.len() {
        None
    } else if label_start(name, start) && entries.contains_key(name.skip(start)) {
        Some(entries[name.skip(start)])
    } else {
        servers_from(entries, name, start + 1)
    }
}

/// The servers that the registry lists for `name`: those of the longest
/// suffix of the name, made of whole labels, that it holds.
pub open spec fn servers_for(entries: Map<Seq<char>, Seq<Seq<char>>>, name: Seq<char>) -> Option<
    Seq<Seq<char>>,
> {
    servers_from(entries, name, 0)
}

/// What one failed query looked like, before it is given a meaning.
#[derive(Debug, Clone, Copy, PartialEq, Eq, Structural)]
pub enum QueryFailure {
    /// The request failed in transport: refused, timed out, TLS.
    Transport,
    /// The server answered with this status code and no usable body.
    Status(u16),
    /// The body could not be decoded.
    Decode,
    /// The body decoded but did not meet the protocol.
    Protocol,
}

/// The meaning of a failed query.
pub open spec fn classified(failure: QueryFailure) -> KnockKnockError {
    match failure {
        QueryFailure::Transport => KnockKnockError::NetworkRequestGlitch,
        QueryFailure::Status(code) => if code == 404 {
            KnockKnockError::DomainNotFound
        } else {
            KnockKnockError::BadServer
        },
        QueryFailure::Decode => KnockKnockError::CouldntParseData,
        QueryFailure::Protocol => KnockKnockError::RdapProblem,
    }
}

/// The server to ask, given what the registry lists: the first server of
/// the list, or why there is none. No list and an empty list are told
/// apart.
pub open spec fn first_of(servers: Option<Seq<Seq<char>>>) -> Result<Seq<char>, KnockKnockError> {
    match servers {
        None => Err(KnockKnockError::UnableToRetrieveListOfServers),
        Some(list) => if list.len() == 0 {
            Err(KnockKnockError::NoServersFound)
        } else {
            Ok(list[0])
        },
    }
}

/// The server to ask about `name`, or why there is none.
pub open spec fn selected(entries: Map<Seq<char>, Seq<Seq<char>>>, name: Seq<char>) -> Result<
    Seq<char>,
    KnockKnockError,
> {
    first_of(servers_for(entries, name))
}

/// What a list of servers that was looked up stands for.
pub open spec fn listed(servers: Option<Vec<String>>) -> Option<Seq<Seq<char>>> {
    match servers {
        Some(list) => Some(texts(list@)),
        None => None,
    }
}

/// A server address in exec code, or the error, as the texts they stand for.
pub open spec fn selection(server: Result<String, KnockKnockError>) -> Result<
    Seq<char>,
    KnockKnockError,
> {
    match server {
        Ok(address) => Ok(address@),
        Err(error) => Err(error),
    }
}

/// Calls `Dns::find` of `rdap_client`. The call splits the name at its
/// dots and looks up the whole name, then the name without its first
/// label, and so on, and hands out the servers of the first suffix that
/// the registry holds; here they are copied.
#[verifier::external_body]
fn find_servers(registry: &Dns, domain_name: &str) -> (servers: Option<Vec<String>>)
    ensures
        listed(servers) == servers_for(dns_entries(*registry), domain_name@),
{
    registry.find(domain_name).cloned()
}

/// Picks the server to ask from what the registry lists for a domain:
/// always the first of the list. Without a list the registry does not
/// cover the domain; with an empty list it covers the domain but names no
/// server for it.
pub fn first_server(servers: Option<Vec<String>>) -> (server: Result<String, KnockKnockError>)
    ensures
        selection(server) == first_of(listed(servers)),
{
    match servers {
        Some(list) => {
            if list.len() > 0 {
                Ok(list[0].clone())
            } else {
                Err(KnockKnockError::NoServersFound)
            }
        },
        None => Err(KnockKnockError::UnableToRetrieveListOfServers),
    }
}

/// Picks the server to ask about `domain_name`: the first that the
/// registry lists for the longest suffix of the name that it holds.
pub fn select_server(registry: &Dns, domain_name: &str) -> (server: Result<
    String,
    KnockKnockError,
>)
    ensures
        selection(server) == selected(dns_entries(*registry), domain_name@),
{
    first_server(find_servers(registry, domain_name))
}

/// Gives a failed query its meaning. Every failure has exactly one.
pub fn classify(failure: QueryFailure) -> (error: KnockKnockError)
    ensures
        error == classified(failure),
{
    match failure {
        QueryFailure::Transport => KnockKnockError::NetworkRequestGlitch,
        QueryFailure::Status(code) => {
            if code == 404 {
                KnockKnockError::DomainNotFound
            } else {
                KnockKnockError::BadServer
            }
        },
        QueryFailure::Decode => KnockKnockError::CouldntParseData,
        QueryFailure::Protocol => KnockKnockError::RdapProblem,
    }
}

/// Closes one attempt: a record passes through as it is, a failure is
/// classified.
pub fn conclude(outcome: Result<RegistrationRecord, QueryFailure>) -> (result: Result<
    RegistrationRecord,
    KnockKnockError,
>)
    ensures
        match outcome {
            Ok(record) => result == Ok::<RegistrationRecord, KnockKnockError>(record),
            Err(failure) => result == Err::<RegistrationRecord, KnockKnockError>(
                classified(failure),
            ),
        },
{
    match outcome {
        Ok(record) => Ok(record),
        Err(failure) => Err(classify(failure)),
    }
}

/// Whether the suffix of `name` that starts at `start` is one of whole
/// labels that the registry holds, and the first such from `from` on.
pub open spec fn first_held_suffix(
    entries: Map<Seq<char>, Seq<Seq<char>>>,
    name: Seq<char>,
    from: int,
    start: int,
) -> bool {
    &&& from <= start
    &&& label_start(name, start)
    &&& entries.contains_key(name.skip(start))
    &&& forall|earlier: int|
        from <= earlier < start && label_start(name, earlier) ==> !#[trigger] entries.contains_key(
            name.skip(earlier),
        )
}

/// From `start` on, the servers found are those of the first suffix that
/// the registry holds, and none are found only where it holds none.
proof fn lemma_servers_from(entries: Map<Seq<char>, Seq<Seq<char>>>, name: Seq<char>, start: int)
    requires
        0 <= start,
    ensures
        match servers_from(entries, name, start) {
            Some(servers) => exists|held: int|
                #[trigger] first_held_suffix(entries, name, start, held) && servers
                    == entries[name.skip(held)],
            None => forall|later: int|
                start <= later && label_start(name, later) ==> !#[trigger] entries.contains_key(
                    name.skip(later),
                ),
        },
    decreases name.len() + 1 - start,
{
    if start <= name.len() {
        if label_start(name, start) && entries.contains_key(name.skip(start)) {
            assert(first_held_suffix(entries, name, start, start));
        } else {
            lemma_servers_from(entries, name, start + 1);
            match servers_from(entries, name, start + 1) {
                Some(servers) => {
                    let held = choose|held: int|
                        #[trigger] first_held_suffix(entries, name, start + 1, held) && servers
                            == entries[name.skip(held)];
                    assert(first_held_suffix(entries, name, start, held));
                },
                None => {},
            }
        }
    }
}

/// The servers listed for a name are those of its longest suffix of whole
/// labels that the registry holds: no longer suffix is held. None are
/// listed only for a name that the registry does not cover.
pub proof fn longest_suffix_decides(entries: Map<Seq<char>, Seq<Seq<char>>>, name: Seq<char>)
    ensures
        match servers_for(entries, name) {
            Some(servers) => exists|held: int|
                #[trigger] first_held_suffix(entries, name, 0, held) && servers
                    == entries[name.skip(held)],
            None => !covers(entries, name),
        },
{
    lemma_servers_from(entries, name, 0);
}

/// A name that the registry does not cover resolves to "unable to
/// retrieve the list of servers", never to "no servers found"; and
/// only such a name does.
pub proof fn uncovered_name_is_unable(entries: Map<Seq<char>, Seq<Seq<char>>>, name: Seq<char>)
    ensures
        !covers(entries, name) <==> selected(entries, name) == Err::<Seq<char>, KnockKnockError>(
            KnockKnockError::UnableToRetrieveListOfServers,
        ),
        !covers(entries, name) ==> selected(entries, name) != Err::<Seq<char>, KnockKnockError>(
            KnockKnockError::NoServersFound,
        ),
{
    longest_suffix_decides(entries, name);
}

/// A failed query is tried again unless the server answered with status
/// 404, which says that the domain is not registered.
pub proof fn only_not_found_is_final(failure: QueryFailure)
    ensures
        classified(failure).retryable() <==> failure != QueryFailure::Status(404),
        classified(failure) != KnockKnockError::NoServersFound,
        classified(failure) != KnockKnockError::UnableToRetrieveListOfServers,
{
}

/// Selecting a server never gives any error but the two that speak of the
/// registry.
pub proof fn selection_errors(entries: Map<Seq<char>, Seq<Seq<char>>>, name: Seq<char>)
    ensures
        match selected(entries, name) {
            Ok(_) => true,
            Err(error) => error == KnockKnockError::UnableToRetrieveListOfServers || error
                == KnockKnockError::NoServersFound,
        },
{
}

} // verus!
