use vstd::prelude::*;

use crate::types::{AccountAddress, DecodedValue, ModuleDescriptor, RpcError, StructTag};

verus! {

/// Where a write-set entry lands in an account: a module's code or a resource.
#[derive(Debug, PartialEq, Eq)]
pub enum DataPath {
    Code(String),
    Resource(StructTag),
}

/// Locates published code or a resource instance in global state.
#[derive(Debug, PartialEq, Eq)]
pub struct AccessPath {
    pub address: AccountAddress,
    pub path: DataPath,
}

/// A raw value written by a transaction.
#[derive(Debug, PartialEq, Eq)]
pub enum WriteValue {
    Code(Vec<u8>),
    Resource(Vec<u8>),
}

/// One change of a write-set; `value` is `None` where the entry deletes.
#[derive(Debug, PartialEq, Eq)]
pub struct WriteSetEntry {
    pub access_path: AccessPath,
    pub value: Option<WriteValue>,
}

/// The lookup that an entry needs before it can be reified.
#[derive(Debug, PartialEq, Eq)]
pub enum Lookup<'a> {
    /// A deletion: nothing to look up.
    Nothing,
    /// Resolve the interface of the module whose bytecode this is.
    ModuleInterface(&'a Vec<u8>),
    /// Resolve this struct's layout, then decode the resource bytes against it.
    ResourceValue(&'a StructTag, &'a Vec<u8>),
    /// The entry writes a resource under a path that names no struct.
    BadPath,
}

/// What came back from the lookup of an entry.
#[derive(Debug, PartialEq, Eq)]
pub enum Resolution {
    /// Nothing was looked up.
    Nothing,
    /// The interface resolved from the entry's bytecode.
    Module(ModuleDescriptor),
    /// The resource bytes, decoded against the resolved struct layout.
    Value(DecodedValue),
    /// The struct's layout could not be found.
    Unresolved,
    /// The bytes could not be read: malformed bytecode, or value bytes that do
    /// not fit the layout.
    Malformed,
}

/// A write-set entry together with the result of its lookup.
#[derive(Debug, PartialEq, Eq)]
pub struct ResolvedEntry {
    pub entry: WriteSetEntry,
    pub resolution: Resolution,
}

/// A written value together with its decoded form.
#[derive(Debug, PartialEq, Eq)]
pub enum DecodedPayload {
    Code { code: Vec<u8>, abi: ModuleDescriptor },
    Resource { raw: Vec<u8>, value: DecodedValue },
}

/// A reified write-set entry; `value` is `None` where the entry deletes.
#[derive(Debug, PartialEq, Eq)]
pub struct DecodedWriteSetEntry {
    pub access_path: AccessPath,
    pub value: Option<DecodedPayload>,
}

/// The lookup that an entry needs.
pub open spec fn lookup_of<'a>(entry: &'a WriteSetEntry) -> Lookup<'a> {
    match &entry.value {
        None => Lookup::Nothing,
        Some(WriteValue::Code(code)) => Lookup::ModuleInterface(code),
        Some(WriteValue::Resource(raw)) => match &entry.access_path.path {
            DataPath::Resource(tag) => Lookup::ResourceValue(tag, raw),
            DataPath::Code(_) => Lookup::BadPath,
        },
    }
}

/// What reifying the entry at position `index` gives.
pub open spec fn entry_outcome(r: ResolvedEntry, index: int) -> Result<DecodedWriteSetEntry, RpcError> {
    match r.entry.value {
        None => Ok(DecodedWriteSetEntry { access_path: r.entry.access_path, value: None }),
        Some(WriteValue::Code(code)) => match r.resolution {
            Resolution::Module(abi) => Ok(
                DecodedWriteSetEntry {
                    access_path: r.entry.access_path,
                    value: Some(DecodedPayload::Code { code, abi }),
                },
            ),
            _ => Err(RpcError::ValueDecodeError),
        },
        Some(WriteValue::Resource(raw)) => {
            if !(r.entry.access_path.path is Resource) {
                Err(RpcError::AccessPathDecodeError { entry: index as usize })
            } else {
                match r.resolution {
                    Resolution::Value(value) => Ok(
                        DecodedWriteSetEntry {
                            access_path: r.entry.access_path,
                            value: Some(DecodedPayload::Resource { raw, value }),
                        },
                    ),
                    Resolution::Unresolved => Err(RpcError::UnresolvedIdentifier),
                    _ => Err(RpcError::ValueDecodeError),
                }
            }
        },
    }
}

/// Every entry of the write-set reifies.
pub open spec fn reifies(s: Seq<ResolvedEntry>) -> bool {
    forall|i: int| 0 <= i < s.len() ==> (#[trigger] entry_outcome(s[i], i)) is Ok
}

/// `out` holds the reified entries of `s`, one for one and in the same order.
pub open spec fn reified_as(s: Seq<ResolvedEntry>, out: Seq<DecodedWriteSetEntry>) -> bool {
    &&& out.len() == s.len()
    &&& forall|i: int|
        0 <= i < s.len() ==> #[trigger] entry_outcome(s[i], i) == Ok::<DecodedWriteSetEntry, RpcError>(
            out[i],
        )
}

/// The entry at `p` is the first one of `s` that does not reify.
pub open spec fn first_failure(s: Seq<ResolvedEntry>, p: int) -> bool {
    &&& 0 <= p < s.len()
    &&& entry_outcome(s[p], p) is Err
    &&& forall|j: int| 0 <= j < p ==> (#[trigger] entry_outcome(s[j], j)) is Ok
}

impl AccessPath {
    /// The struct that a resource path names, if it names one.
    pub fn as_struct_tag(&self) -> (r: Option<&StructTag>)
        ensures
            r is Some <==> self.path is Resource,
            r matches Some(tag) ==> self.path == DataPath::Resource(*tag),
    {
        match &self.path {
            DataPath::Resource(tag) => Some(tag),
            DataPath::Code(_) => None,
        }
    }
}

/// The lookup that an entry needs before it can be reified.
pub fn lookup(entry: &WriteSetEntry) -> (r: Lookup<'_>)
    ensures
        r == lookup_of(entry),
{
    match &entry.value {
        None => Lookup::Nothing,
        Some(WriteValue::Code(code)) => Lookup::ModuleInterface(code),
        Some(WriteValue::Resource(raw)) => match entry.access_path.as_struct_tag() {
            Some(tag) => Lookup::ResourceValue(tag, raw),
            None => Lookup::BadPath,
        },
    }
}

/// Reifies one write-set entry, found at position `index`, from its lookup result.
pub fn reify_entry(resolved: ResolvedEntry, index: usize) -> (r: Result<DecodedWriteSetEntry, RpcError>)
    ensures
        r == entry_outcome(resolved, index as int),
{
    let ResolvedEntry { entry, resolution } = resolved;
    let WriteSetEntry { access_path, value } = entry;
    match value {
        None => Ok(DecodedWriteSetEntry { access_path, value: None }),
        Some(WriteValue::Code(code)) => match resolution {
            Resolution::Module(abi) => Ok(
                DecodedWriteSetEntry { access_path, value: Some(DecodedPayload::Code { code, abi }) },
            ),
            _ => Err(RpcError::ValueDecodeError),
        },
        Some(WriteValue::Resource(raw)) => {
            if access_path.as_struct_tag().is_none() {
                return Err(RpcError::AccessPathDecodeError { entry: index });
            }
            match resolution {
                Resolution::Value(value) => Ok(
                    DecodedWriteSetEntry {
                        access_path,
                        value: Some(DecodedPayload::Resource { raw, value }),
                    },
                ),
                Resolution::Unresolved => Err(RpcError::UnresolvedIdentifier),
                _ => Err(RpcError::ValueDecodeError),
            }
        },
    }
}

/// Reifies a whole write-set, in order. The first entry that does not reify
/// fails the whole request: no partial result is returned.
pub fn reify_write_set(entries: Vec<ResolvedEntry>) -> (r: Result<Vec<DecodedWriteSetEntry>, RpcError>)
    ensures
        r is Ok <==> reifies(entries@),
        r matches Ok(out) ==> reified_as(entries@, out@),
        forall|p: int|
            #![trigger first_failure(entries@, p)]
            first_failure(entries@, p) ==> r == Err::<Vec<DecodedWriteSetEntry>, RpcError>(
                entry_outcome(entries@[p], p)->Err_0,
            ),
{
    let ghost s = entries@;
    let n = entries.len();
    let mut rest = entries;
    let mut out: Vec<DecodedWriteSetEntry> = Vec::new();
    let mut i: usize = 0;
    while i < n
        invariant
            s == entries@,
            n == s.len(),
            i <= n,
            rest@ == s.subrange(i as int, n as int),
            out@.len() == i,
            forall|j: int|
                0 <= j < i ==> #[trigger] entry_outcome(s[j], j) == Ok::<DecodedWriteSetEntry, RpcError>(
                    out@[j],
                ),
        decreases n - i,
    {
        let resolved = rest.remove(0);
        assert(resolved == s[i as int]);
        match reify_entry(resolved, i) {
            Ok(decoded) => out.push(decoded),
            Err(e) => {
                assert(entry_outcome(s[i as int], i as int) == Err::<DecodedWriteSetEntry, RpcError>(e));
                assert(!reifies(s));
                assert(first_failure(s, i as int));
                assert forall|p: int| first_failure(s, p) implies p == i by {
                    if p > i {
                        assert(entry_outcome(s[i as int], i as int) is Ok);
                    }
                }
                return Err(e);
            },
        }
        i = i + 1;
    }
    assert forall|p: int| !first_failure(s, p) by {
        if 0 <= p < n {
            assert(entry_outcome(s[p], p) is Ok);
        }
    }
    Ok(out)
}

/// How a simulated execution ended.
#[derive(Clone, Copy, Debug, PartialEq, Eq, Structural)]
pub enum VmStatus {
    /// The transaction ran to completion.
    Executed,
    /// The contract aborted with this code.
    MoveAbort { code: u64 },
    /// Execution failed with this status code.
    ExecutionFailure { code: u64 },
    /// The transaction was not run, for this status code.
    Discarded { code: u64 },
}

/// The result of a dry run: the execution status, explained, and the write-set
/// with each written value decoded.
#[derive(Debug, PartialEq, Eq)]
pub struct DryRunOutput {
    pub explained_status: String,
    pub status: VmStatus,
    pub gas_used: u64,
    pub write_set: Vec<DecodedWriteSetEntry>,
}

/// Assembles the result of a dry run from what the simulation produced: its
/// status, the explanation of that status, the gas it used, and its write-set
/// with each entry's lookup result.
///
/// How execution ended does not decide success: an aborted transaction is a
/// valid result that carries its explanation. Only a write-set that does not
/// reify fails the dry run.
pub fn dry_run(
    status: VmStatus,
    explained_status: String,
    gas_used: u64,
    write_set: Vec<ResolvedEntry>,
) -> (r: Result<DryRunOutput, RpcError>)
    ensures
        r is Ok <==> reifies(write_set@),
        r matches Ok(o) ==> {
            &&& o.explained_status == explained_status
            &&& o.status == status
            &&& o.gas_used == gas_used
            &&& reified_as(write_set@, o.write_set@)
        },
        forall|p: int|
            #![trigger first_failure(write_set@, p)]
            first_failure(write_set@, p) ==> r == Err::<DryRunOutput, RpcError>(
                entry_outcome(write_set@[p], p)->Err_0,
            ),
{
    match reify_write_set(write_set) {
        Ok(decoded) => Ok(DryRunOutput { explained_status, status, gas_used, write_set: decoded }),
        Err(e) => Err(e),
    }
}

/// The resource stored at a path, decoded. `stored` is what the path holds, and
/// `resolution` what its lookup gave: the bytes decoded against the resource's
/// layout. A path with nothing stored gives `None`, not an error.
pub fn get_resource(stored: &Option<Vec<u8>>, resolution: Resolution) -> (r: Result<Option<DecodedValue>, RpcError>)
    ensures
        stored is None ==> r == Ok::<Option<DecodedValue>, RpcError>(None),
        stored is Some ==> r == match resolution {
            Resolution::Value(v) => Ok::<Option<DecodedValue>, RpcError>(Some(v)),
            Resolution::Unresolved => Err(RpcError::UnresolvedIdentifier),
            _ => Err(RpcError::ValueDecodeError),
        },
{
    match stored {
        None => Ok(None),
        Some(_) => match resolution {
            Resolution::Value(v) => Ok(Some(v)),
            Resolution::Unresolved => Err(RpcError::UnresolvedIdentifier),
            _ => Err(RpcError::ValueDecodeError),
        },
    }
}

/// Reification keeps the write-set's order: the entry at each position of the
/// result carries the access path of the entry at that position of the input.
pub proof fn lemma_reification_keeps_order(s: Seq<ResolvedEntry>, out: Seq<DecodedWriteSetEntry>)
    requires
        reified_as(s, out),
    ensures
        out.len() == s.len(),
        forall|i: int| 0 <= i < s.len() ==> (#[trigger] out[i]).access_path == s[i].entry.access_path,
{
    assert forall|i: int| 0 <= i < s.len() implies (#[trigger] out[i]).access_path
        == s[i].entry.access_path by {
        assert(entry_outcome(s[i], i) == Ok::<DecodedWriteSetEntry, RpcError>(out[i]));
    }
}

/// Code whose interface cannot be resolved fails the whole write-set with a
/// value decode error, once the entries before it have reified: nothing
/// partial comes back.
pub proof fn lemma_malformed_code_fails_write_set(s: Seq<ResolvedEntry>, p: int)
    requires
        0 <= p < s.len(),
        s[p].entry.value matches Some(WriteValue::Code(_)),
        s[p].resolution == Resolution::Malformed,
        forall|j: int| 0 <= j < p ==> (#[trigger] entry_outcome(s[j], j)) is Ok,
    ensures
        !reifies(s),
        first_failure(s, p),
        entry_outcome(s[p], p) == Err::<DecodedWriteSetEntry, RpcError>(RpcError::ValueDecodeError),
{
}

} // verus!
