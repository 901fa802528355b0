use vstd::prelude::*;
use base64::Engine;
use crate::address::Address;
use crate::network::{SuiNetwork, network_token};

verus! {

/// What decoding `s` with the standard padded base64 alphabet yields, or
/// `None` where `s` is not valid base64.
pub uninterp spec fn base64_standard_decode(s: Seq<char>) -> Option<Seq<u8>>;

/// The text read from a decompiler's output, with each invalid UTF-8
/// sequence replaced by U+FFFD.
pub uninterp spec fn utf8_lossy(b: Seq<u8>) -> Seq<char>;

/// Relies on base64's `general_purpose::STANDARD` engine and its `decode`:
/// the decoded bytes, or an error, depending on the text alone.
#[verifier::external_body]
fn decode_base64(s: &str) -> (r: Option<Vec<u8>>)
    ensures
        r is Some <==> base64_standard_decode(s@) is Some,
        r matches Some(b) ==> base64_standard_decode(s@) == Some(b@),
{
    base64::engine::general_purpose::STANDARD.decode(s).ok()
}

/// Relies on `String::from_utf8_lossy`: the bytes read as UTF-8, with
/// invalid sequences replaced.
#[verifier::external_body]
fn lossy_text(b: &Vec<u8>) -> (r: String)
    ensures
        r@ == utf8_lossy(b@),
{
    String::from_utf8_lossy(b.as_slice()).to_string()
}

/// The full node endpoint of a network.
pub open spec fn rpc_url_text(network: SuiNetwork) -> Seq<char> {
    "https://fullnode."@ + network_token(network) + ".io:443"@
}

/// The JSON-RPC request that asks for an object together with its BCS bytes.
pub open spec fn rpc_body_text(address: Seq<char>) -> Seq<char> {
    "{\"jsonrpc\":\"2.0\",\"id\":1,\"method\":\"sui_getObject\",\"params\":[\""@ + address
        + "\",{\"showBcs\":true}]}"@
}

/// Where a module's bytecode is written for the decompiler to read.
pub open spec fn scratch_path_text(module_name: Seq<char>) -> Seq<char> {
    "/tmp/modules/"@ + module_name + ".mv"@
}

/// The full node endpoint to ask on `network`.
pub fn rpc_url(network: SuiNetwork) -> (r: String)
    ensures
        r@ == rpc_url_text(network),
{
    let mut s = String::from_str("https://fullnode.");
    s.append(network.as_str());
    s.append(".io:443");
    s
}

/// The body of the object lookup for `address`. An address holds only `0x`
/// and hexadecimal digits, so it needs no escaping.
pub fn rpc_request_body(address: &Address) -> (r: String)
    ensures
        r@ == rpc_body_text(address@),
{
    let mut s = String::from_str(
        "{\"jsonrpc\":\"2.0\",\"id\":1,\"method\":\"sui_getObject\",\"params\":[\"",
    );
    s.append(address.as_str());
    s.append("\",{\"showBcs\":true}]}");
    s
}

/// The scratch file for the module `module_name`.
pub fn module_scratch_path(module_name: &str) -> (r: String)
    ensures
        r@ == scratch_path_text(module_name@),
{
    let mut s = String::from_str("/tmp/modules/");
    s.append(module_name);
    s.append(".mv");
    s
}

/// A request for the decompiled modules of the package at `package_id`.
#[derive(Debug)]
pub struct RevelaRequest {
    pub package_id: Address,
    pub network: SuiNetwork,
}

/// One module to hand to the decompiler: its name, the scratch file to write,
/// and the decoded bytecode to write there.
#[derive(Debug)]
pub struct ModuleJob {
    pub module_name: String,
    pub path: String,
    pub bytecode: Vec<u8>,
}

impl ModuleJob {
    /// The job for a module whose bytecode has been decoded.
    pub fn new(module_name: &str, bytecode: Vec<u8>) -> (r: ModuleJob)
        ensures
            r.module_name@ == module_name@,
            r.path@ == scratch_path_text(module_name@),
            r.bytecode@ == bytecode@,
    {
        ModuleJob {
            module_name: module_name.to_string(),
            path: module_scratch_path(module_name),
            bytecode,
        }
    }
}

/// A module whose payload is not valid base64.
#[derive(Debug)]
pub struct DecodeError {
    pub module_name: String,
}

/// Decodes every entry of a fetched module map, in order. The first entry
/// that is not valid base64 stops the whole call.
pub fn decode_module_map(entries: &Vec<(String, String)>) -> (r: Result<Vec<ModuleJob>, DecodeError>)
    ensures
        r is Ok <==> forall|i: int|
            0 <= i < entries@.len() ==> (#[trigger] base64_standard_decode(entries@[i].1@)) is Some,
        r matches Ok(jobs) ==> {
            &&& jobs@.len() == entries@.len()
            &&& forall|i: int|
                0 <= i < jobs@.len() ==> {
                    &&& (#[trigger] jobs@[i]).module_name@ == entries@[i].0@
                    &&& jobs@[i].path@ == scratch_path_text(entries@[i].0@)
                    &&& base64_standard_decode(entries@[i].1@) == Some(jobs@[i].bytecode@)
                }
        },
        r matches Err(e) ==> exists|i: int|
            0 <= i < entries@.len() && base64_standard_decode(entries@[i].1@) is None
                && e.module_name@ == entries@[i].0@ && forall|j: int|
                0 <= j < i ==> (#[trigger] base64_standard_decode(entries@[j].1@)) is Some,
{
    let n = entries.len();
    let mut jobs: Vec<ModuleJob> = Vec::new();
    let mut i: usize = 0;
    while i < n
        invariant
            n == entries@.len(),
            i <= n,
            jobs@.len() == i,
            forall|j: int|
                0 <= j < i ==> {
                    &&& (#[trigger] jobs@[j]).module_name@ == entries@[j].0@
                    &&& jobs@[j].path@ == scratch_path_text(entries@[j].0@)
                    &&& base64_standard_decode(entries@[j].1@) == Some(jobs@[j].bytecode@)
                },
        decreases n - i,
    {
        let (name, payload) = &entries[i];
        match decode_base64(payload.as_str()) {
            Some(bytes) => {
                jobs.push(ModuleJob::new(name.as_str(), bytes));
            },
            None => {
                let e = DecodeError { module_name: name.clone() };
                assert forall|j: int| 0 <= j < i implies (#[trigger] base64_standard_decode(
                    entries@[j].1@,
                )) is Some by {
                    let job = jobs@[j];
                    assert(base64_standard_decode(entries@[j].1@) == Some(job.bytecode@));
                }
                return Err(e);
            },
        }
        i = i + 1;
    }
    assert forall|j: int| 0 <= j < entries@.len() implies (#[trigger] base64_standard_decode(
        entries@[j].1@,
    )) is Some by {
        let job = jobs@[j];
        assert(base64_standard_decode(entries@[j].1@) == Some(job.bytecode@));
    }
    Ok(jobs)
}

/// Decompiled source text by module name, in the order the modules were
/// processed.
#[derive(Debug)]
pub struct RevelaResponse {
    data: Vec<(String, String)>,
}

impl View for RevelaResponse {
    type V = Seq<(Seq<char>, Seq<char>)>;

    closed spec fn view(&self) -> Seq<(Seq<char>, Seq<char>)> {
        self.data@.map_values(|p: (String, String)| (p.0@, p.1@))
    }
}

impl RevelaResponse {
    /// A response holding the given `(module name, source text)` pairs.
    pub fn new(hp: Vec<(String, String)>) -> (r: RevelaResponse)
        ensures
            r@ == hp@.map_values(|p: (String, String)| (p.0@, p.1@)),
    {
        RevelaResponse { data: hp }
    }

    /// The `(module name, source text)` pairs.
    pub fn data(&self) -> (r: &Vec<(String, String)>)
        ensures
            r@.map_values(|p: (String, String)| (p.0@, p.1@)) == self@,
    {
        &self.data
    }

    /// Adds the source text of one more module.
    pub fn insert_source(&mut self, module_name: &str, source: &str)
        ensures
            final(self)@ == old(self)@.push((module_name@, source@)),
    {
        let ghost before = self.data@;
        self.data.push((module_name.to_string(), source.to_string()));
        assert(self.data@.map_values(|p: (String, String)| (p.0@, p.1@)) =~= before.map_values(
            |p: (String, String)| (p.0@, p.1@),
        ).push((module_name@, source@)));
    }
}

/// Assembles the response from the decompiler's captured output for each
/// job, taken in the same order as the jobs.
pub fn collect_outputs(jobs: &Vec<ModuleJob>, outputs: &Vec<Vec<u8>>) -> (r: RevelaResponse)
    requires
        jobs@.len() == outputs@.len(),
    ensures
        r@.len() == jobs@.len(),
        forall|i: int|
            0 <= i < r@.len() ==> #[trigger] r@[i] == (jobs@[i].module_name@, utf8_lossy(
                outputs@[i]@,
            )),
{
    let mut resp = RevelaResponse::new(Vec::new());
    assert(resp@ =~= Seq::<(Seq<char>, Seq<char>)>::empty());
    let n = jobs.len();
    let mut i: usize = 0;
    while i < n
        invariant
            n == jobs@.len(),
            n == outputs@.len(),
            i <= n,
            resp@.len() == i,
            forall|j: int|
                0 <= j < i ==> #[trigger] resp@[j] == (jobs@[j].module_name@, utf8_lossy(
                    outputs@[j]@,
                )),
        decreases n - i,
    {
        let text = lossy_text(&outputs[i]);
        resp.insert_source(jobs[i].module_name.as_str(), text.as_str());
        i = i + 1;
    }
    resp
}

} // verus!
