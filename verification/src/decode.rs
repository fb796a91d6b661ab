use vstd::prelude::*;
use vstd::string::StringExecFns;

use crate::json::{Doc, DocV, Record, RecordV, Scalar, ScalarV, TopValue, TopValueV};
use crate::json::{parse_doc_bytes, parsed_doc, records_view, scalar_fields_view};
use crate::QueryFailure;

verus! {

/// A single deployment, i.e. a bootable ostree commit.
#[derive(Debug, PartialEq)]
pub struct Deployment {
    pub unlocked: Option<String>,
    pub osname: String,
    pub pinned: bool,
    pub checksum: String,
    pub staged: Option<bool>,
    pub booted: bool,
    pub serial: u32,
    pub origin: String,
}

/// Representation of the rpm-ostree client-side state; decoded from the
/// output of `rpm-ostree status --json`.  The order of `deployments` is
/// the order the command reported and is preserved.
#[derive(Debug, PartialEq)]
pub struct Status {
    pub deployments: Vec<Deployment>,
}

/// Mathematical model of a `Deployment`.
#[verifier::ext_equal]
pub struct DeploymentV {
    pub unlocked: Option<Seq<char>>,
    pub osname: Seq<char>,
    pub pinned: bool,
    pub checksum: Seq<char>,
    pub staged: Option<bool>,
    pub booted: bool,
    pub serial: u32,
    pub origin: Seq<char>,
}

/// Mathematical model of a `Status`.
#[verifier::ext_equal]
pub struct StatusV {
    pub deployments: Seq<DeploymentV>,
}

impl View for Deployment {
    type V = DeploymentV;

    open spec fn view(&self) -> DeploymentV {
        DeploymentV {
            unlocked: match self.unlocked {
                Some(s) => Some(s@),
                None => None,
            },
            osname: self.osname@,
            pinned: self.pinned,
            checksum: self.checksum@,
            staged: self.staged,
            booted: self.booted,
            serial: self.serial,
            origin: self.origin@,
        }
    }
}

/// The models of a sequence of deployments.
pub open spec fn deployments_view(ds: Seq<Deployment>) -> Seq<DeploymentV> {
    ds.map_values(|d: Deployment| d@)
}

impl View for Status {
    type V = StatusV;

    open spec fn view(&self) -> StatusV {
        StatusV { deployments: deployments_view(self.deployments@) }
    }
}

/// First match for `key` among the fields of a record, searching from `i`.
pub open spec fn lookup_scalar_from(
    f: Seq<(Seq<char>, ScalarV)>,
    key: Seq<char>,
    i: int,
) -> Option<ScalarV>
    decreases f.len() - i,
{
    if i < 0 || i >= f.len() {
        None
    } else if f[i].0 == key {
        Some(f[i].1)
    } else {
        lookup_scalar_from(f, key, i + 1)
    }
}

/// First match for `key` among the fields of a record.
pub open spec fn lookup_scalar(f: Seq<(Seq<char>, ScalarV)>, key: Seq<char>) -> Option<ScalarV> {
    lookup_scalar_from(f, key, 0)
}

/// First match for `key` among the top-level fields, searching from `i`.
pub open spec fn lookup_top_from(
    f: Seq<(Seq<char>, TopValueV)>,
    key: Seq<char>,
    i: int,
) -> Option<TopValueV>
    decreases f.len() - i,
{
    if i < 0 || i >= f.len() {
        None
    } else if f[i].0 == key {
        Some(f[i].1)
    } else {
        lookup_top_from(f, key, i + 1)
    }
}

/// First match for `key` among the top-level fields.
pub open spec fn lookup_top(f: Seq<(Seq<char>, TopValueV)>, key: Seq<char>) -> Option<TopValueV> {
    lookup_top_from(f, key, 0)
}

/// A required string field: present and a string, else the record is rejected.
pub open spec fn spec_req_str(f: Seq<(Seq<char>, ScalarV)>, key: Seq<char>) -> Option<Seq<char>> {
    match lookup_scalar(f, key) {
        Some(ScalarV::Str(s)) => Some(s),
        _ => None,
    }
}

/// A required boolean field: present and a boolean, else the record is rejected.
pub open spec fn spec_req_bool(f: Seq<(Seq<char>, ScalarV)>, key: Seq<char>) -> Option<bool> {
    match lookup_scalar(f, key) {
        Some(ScalarV::Bool(b)) => Some(b),
        _ => None,
    }
}

/// The serial field: a non-negative integer that fits in 32 bits.
pub open spec fn spec_req_serial(f: Seq<(Seq<char>, ScalarV)>, key: Seq<char>) -> Option<u32> {
    match lookup_scalar(f, key) {
        Some(ScalarV::UInt(u)) => if u <= u32::MAX {
            Some(u as u32)
        } else {
            None
        },
        _ => None,
    }
}

/// An optional boolean field: absent and null both mean unknown.
/// The outer `Option` is `None` where the field is present with a wrong type.
pub open spec fn spec_opt_bool(f: Seq<(Seq<char>, ScalarV)>, key: Seq<char>) -> Option<
    Option<bool>,
> {
    match lookup_scalar(f, key) {
        None => Some(None),
        Some(ScalarV::Null) => Some(None),
        Some(ScalarV::Bool(b)) => Some(Some(b)),
        _ => None,
    }
}

/// An optional string field: absent and null both mean not set.
/// The outer `Option` is `None` where the field is present with a wrong type.
pub open spec fn spec_opt_str(f: Seq<(Seq<char>, ScalarV)>, key: Seq<char>) -> Option<
    Option<Seq<char>>,
> {
    match lookup_scalar(f, key) {
        None => Some(None),
        Some(ScalarV::Null) => Some(None),
        Some(ScalarV::Str(s)) => Some(Some(s)),
        _ => None,
    }
}

/// What one entry of the deployment list decodes to: a deployment exactly
/// where every required field is present with its type and every optional
/// field is absent, null, or of its type; `None` otherwise.  Fields under
/// any other name are ignored.
pub open spec fn spec_deployment_of(r: RecordV) -> Option<DeploymentV> {
    match r {
        RecordV::Obj(f) => match (
            spec_req_str(f, "osname"@),
            spec_req_str(f, "checksum"@),
            spec_req_str(f, "origin"@),
            spec_req_serial(f, "serial"@),
            spec_req_bool(f, "booted"@),
            spec_req_bool(f, "pinned"@),
            spec_opt_bool(f, "staged"@),
            spec_opt_str(f, "unlocked"@),
        ) {
            (
                Some(osname),
                Some(checksum),
                Some(origin),
                Some(serial),
                Some(booted),
                Some(pinned),
                Some(staged),
                Some(unlocked),
            ) => Some(
                DeploymentV { unlocked, osname, pinned, checksum, staged, booted, serial, origin },
            ),
            _ => None,
        },
        RecordV::NonObj => None,
    }
}

/// What the tail of the deployment list starting at `i` decodes to:
/// all entries decode, in order, or the whole list is rejected.
pub open spec fn spec_deployments_from(rs: Seq<RecordV>, i: int) -> Option<Seq<DeploymentV>>
    decreases rs.len() - i,
{
    if i < 0 || i >= rs.len() {
        Some(Seq::empty())
    } else {
        match (spec_deployment_of(rs[i]), spec_deployments_from(rs, i + 1)) {
            (Some(d), Some(rest)) => Some(seq![d] + rest),
            _ => None,
        }
    }
}

/// What the deployment list decodes to.
pub open spec fn spec_deployments_of(rs: Seq<RecordV>) -> Option<Seq<DeploymentV>> {
    spec_deployments_from(rs, 0)
}

/// What a whole document decodes to: the top level must be an object whose
/// `deployments` field is an array of decodable deployment records.
pub open spec fn spec_status_of(d: DocV) -> Option<StatusV> {
    match d {
        DocV::Obj(f) => match lookup_top(f, "deployments"@) {
            Some(TopValueV::Arr(rs)) => match spec_deployments_of(rs) {
                Some(ds) => Some(StatusV { deployments: ds }),
                _ => None,
            },
            _ => None,
        },
        DocV::NonObj => None,
    }
}

/// What a byte string decodes to: what the JSON it parses to decodes to,
/// or nothing where it is not valid JSON.
pub open spec fn spec_decode(b: Seq<u8>) -> Option<StatusV> {
    match parsed_doc(b) {
        Some(doc) => spec_status_of(doc),
        None => None,
    }
}

/// First field of a record matching `key`, by reference.
fn find_scalar<'a>(f: &'a Vec<(String, Scalar)>, key: &String) -> (r: Option<&'a Scalar>)
    ensures
        match r {
            Some(s) => lookup_scalar(scalar_fields_view(f@), key@) == Some(s@),
            None => lookup_scalar(scalar_fields_view(f@), key@) is None,
        },
{
    let ghost fv = scalar_fields_view(f@);
    let mut i: usize = 0;
    while i < f.len()
        invariant
            0 <= i <= f.len(),
            fv == scalar_fields_view(f@),
            fv.len() == f.len(),
            lookup_scalar_from(fv, key@, 0) == lookup_scalar_from(fv, key@, i as int),
        decreases f.len() - i,
    {
        let p = &f[i];
        if p.0 == *key {
            assert(fv[i as int] == (p.0@, p.1@));
            return Some(&p.1);
        }
        assert(fv[i as int].0 != key@);
        i += 1;
    }
    None
}

/// First top-level field matching `key`, by reference.
fn find_top<'a>(f: &'a Vec<(String, TopValue)>, key: &String) -> (r: Option<&'a TopValue>)
    ensures
        match r {
            Some(v) => lookup_top(crate::json::top_fields_view(f@), key@) == Some(v@),
            None => lookup_top(crate::json::top_fields_view(f@), key@) is None,
        },
{
    let ghost fv = crate::json::top_fields_view(f@);
    let mut i: usize = 0;
    while i < f.len()
        invariant
            0 <= i <= f.len(),
            fv == crate::json::top_fields_view(f@),
            fv.len() == f.len(),
            lookup_top_from(fv, key@, 0) == lookup_top_from(fv, key@, i as int),
        decreases f.len() - i,
    {
        let p = &f[i];
        if p.0 == *key {
            assert(fv[i as int] == (p.0@, p.1@));
            return Some(&p.1);
        }
        assert(fv[i as int].0 != key@);
        i += 1;
    }
    None
}

/// A decode failure carrying the given description.
fn decode_failure(text: &str) -> (r: QueryFailure)
    ensures
        r@ is DecodeFailure,
{
    QueryFailure::DecodeFailure(String::from_str(text))
}

/// Decode one entry of the deployment list.
pub fn deployment_from_record(r: &Record) -> (res: Result<Deployment, QueryFailure>)
    ensures
        res is Ok <==> spec_deployment_of(r@) is Some,
        res matches Ok(d) ==> Some(d@) == spec_deployment_of(r@),
        res matches Err(e) ==> e@ is DecodeFailure,
{
    let f = match r {
        Record::Obj(f) => f,
        Record::NonObj => {
            return Err(decode_failure("deployment entry is not an object"));
        },
    };
    let osname = match find_scalar(f, &String::from_str("osname")) {
        Some(Scalar::Str(s)) => s.clone(),
        _ => {
            return Err(decode_failure("missing or malformed field 'osname'"));
        },
    };
    let checksum = match find_scalar(f, &String::from_str("checksum")) {
        Some(Scalar::Str(s)) => s.clone(),
        _ => {
            return Err(decode_failure("missing or malformed field 'checksum'"));
        },
    };
    let origin = match find_scalar(f, &String::from_str("origin")) {
        Some(Scalar::Str(s)) => s.clone(),
        _ => {
            return Err(decode_failure("missing or malformed field 'origin'"));
        },
    };
    let serial = match find_scalar(f, &String::from_str("serial")) {
        Some(Scalar::UInt(u)) => {
            if *u <= u32::MAX as u64 {
                *u as u32
            } else {
                return Err(decode_failure("field 'serial' is out of range"));
            }
        },
        _ => {
            return Err(decode_failure("missing or malformed field 'serial'"));
        },
    };
    let booted = match find_scalar(f, &String::from_str("booted")) {
        Some(Scalar::Bool(b)) => *b,
        _ => {
            return Err(decode_failure("missing or malformed field 'booted'"));
        },
    };
    let pinned = match find_scalar(f, &String::from_str("pinned")) {
        Some(Scalar::Bool(b)) => *b,
        _ => {
            return Err(decode_failure("missing or malformed field 'pinned'"));
        },
    };
    let staged = match find_scalar(f, &String::from_str("staged")) {
        None => None,
        Some(Scalar::Null) => None,
        Some(Scalar::Bool(b)) => Some(*b),
        _ => {
            return Err(decode_failure("malformed field 'staged'"));
        },
    };
    let unlocked = match find_scalar(f, &String::from_str("unlocked")) {
        None => None,
        Some(Scalar::Null) => None,
        Some(Scalar::Str(s)) => Some(s.clone()),
        _ => {
            return Err(decode_failure("malformed field 'unlocked'"));
        },
    };
    Ok(Deployment { unlocked, osname, pinned, checksum, staged, booted, serial, origin })
}

/// Decode a whole document into a status snapshot.
pub fn status_from_doc(doc: &Doc) -> (res: Result<Status, QueryFailure>)
    ensures
        res is Ok <==> spec_status_of(doc@) is Some,
        res matches Ok(s) ==> Some(s@) == spec_status_of(doc@),
        res matches Err(e) ==> e@ is DecodeFailure,
{
    let f = match doc {
        Doc::Obj(f) => f,
        Doc::NonObj => {
            return Err(decode_failure("status output is not an object"));
        },
    };
    let rs = match find_top(f, &String::from_str("deployments")) {
        Some(TopValue::Arr(rs)) => rs,
        _ => {
            return Err(decode_failure("missing or malformed field 'deployments'"));
        },
    };
    let ghost rv = records_view(rs@);
    let mut deployments: Vec<Deployment> = Vec::new();
    let mut i: usize = 0;
    while i < rs.len()
        invariant
            0 <= i <= rs.len(),
            rv == records_view(rs@),
            rv.len() == rs.len(),
            spec_status_of(doc@) == match spec_deployments_of(rv) {
                Some(ds) => Some(StatusV { deployments: ds }),
                None => None::<StatusV>,
            },
            spec_deployments_from(rv, 0) == match spec_deployments_from(rv, i as int) {
                Some(rest) => Some(deployments_view(deployments@) + rest),
                None => None::<Seq<DeploymentV>>,
            },
        decreases rs.len() - i,
    {
        assert(rv[i as int] == rs@[i as int]@);
        match deployment_from_record(&rs[i]) {
            Ok(d) => {
                let ghost old_ds = deployments_view(deployments@);
                deployments.push(d);
                proof {
                    assert(deployments_view(deployments@) =~= old_ds.push(d@));
                    assert(spec_deployments_from(rv, i as int) matches Some(rest)
                        ==> rest =~= seq![d@] + spec_deployments_from(rv, i as int + 1)->Some_0);
                    assert(forall|rest: Seq<DeploymentV>|
                        (old_ds + (seq![d@] + rest)) =~= (old_ds.push(d@) + rest));
                }
            },
            Err(e) => {
                proof {
                    assert(spec_deployment_of(rv[i as int]) is None);
                    assert(spec_deployments_from(rv, i as int) is None);
                }
                return Err(e);
            },
        }
        i += 1;
    }
    assert(spec_deployments_from(rv, i as int) == Some(Seq::<DeploymentV>::empty()));
    assert(deployments_view(deployments@) + Seq::<DeploymentV>::empty()
        =~= deployments_view(deployments@));
    Ok(Status { deployments })
}

/// Decode the raw stdout bytes of the status command.
pub fn decode(input: &[u8]) -> (res: Result<Status, QueryFailure>)
    ensures
        res is Ok <==> spec_decode(input@) is Some,
        res matches Ok(s) ==> Some(s@) == spec_decode(input@),
        res matches Err(e) ==> e@ is DecodeFailure,
{
    match parse_doc_bytes(input) {
        Ok(doc) => status_from_doc(&doc),
        Err(m) => Err(QueryFailure::DecodeFailure(m)),
    }
}

/// The scalar an optional string field encodes to: its string, or null.
pub open spec fn spec_opt_str_scalar(o: Option<Seq<char>>) -> ScalarV {
    match o {
        Some(s) => ScalarV::Str(s),
        None => ScalarV::Null,
    }
}

/// The scalar an optional boolean field encodes to: its boolean, or null.
pub open spec fn spec_opt_bool_scalar(o: Option<bool>) -> ScalarV {
    match o {
        Some(b) => ScalarV::Bool(b),
        None => ScalarV::Null,
    }
}

/// The record a deployment encodes to, fields in name order.
pub open spec fn spec_deployment_fields(d: DeploymentV) -> Seq<(Seq<char>, ScalarV)> {
    seq![
        ("booted"@, ScalarV::Bool(d.booted)),
        ("checksum"@, ScalarV::Str(d.checksum)),
        ("origin"@, ScalarV::Str(d.origin)),
        ("osname"@, ScalarV::Str(d.osname)),
        ("pinned"@, ScalarV::Bool(d.pinned)),
        ("serial"@, ScalarV::UInt(d.serial as u64)),
        ("staged"@, spec_opt_bool_scalar(d.staged)),
        ("unlocked"@, spec_opt_str_scalar(d.unlocked)),
    ]
}

/// The record a deployment encodes to.
pub open spec fn spec_deployment_record(d: DeploymentV) -> RecordV {
    RecordV::Obj(spec_deployment_fields(d))
}

/// The document a status snapshot encodes to.
pub open spec fn spec_status_doc(s: StatusV) -> DocV {
    DocV::Obj(
        seq![
            (
                "deployments"@,
                TopValueV::Arr(s.deployments.map_values(|d: DeploymentV| spec_deployment_record(d))),
            ),
        ],
    )
}

/// Encode one deployment as a record.
pub fn deployment_to_record(d: &Deployment) -> (r: Record)
    ensures
        r@ == spec_deployment_record(d@),
{
    let mut f: Vec<(String, Scalar)> = Vec::new();
    f.push((String::from_str("booted"), Scalar::Bool(d.booted)));
    f.push((String::from_str("checksum"), Scalar::Str(d.checksum.clone())));
    f.push((String::from_str("origin"), Scalar::Str(d.origin.clone())));
    f.push((String::from_str("osname"), Scalar::Str(d.osname.clone())));
    f.push((String::from_str("pinned"), Scalar::Bool(d.pinned)));
    f.push((String::from_str("serial"), Scalar::UInt(d.serial as u64)));
    let staged = match d.staged {
        Some(b) => Scalar::Bool(b),
        None => Scalar::Null,
    };
    f.push((String::from_str("staged"), staged));
    let unlocked = match &d.unlocked {
        Some(s) => Scalar::Str(s.clone()),
        None => Scalar::Null,
    };
    f.push((String::from_str("unlocked"), unlocked));
    proof {
        assert(scalar_fields_view(f@) =~= spec_deployment_fields(d@));
    }
    Record::Obj(f)
}

/// Encode a status snapshot as a document.
pub fn status_to_doc(s: &Status) -> (doc: Doc)
    ensures
        doc@ == spec_status_doc(s@),
{
    let mut rs: Vec<Record> = Vec::new();
    let mut i: usize = 0;
    while i < s.deployments.len()
        invariant
            0 <= i <= s.deployments.len(),
            rs@.len() == i,
            forall|j: int|
                #![trigger records_view(rs@)[j]]
                0 <= j < i ==> records_view(rs@)[j] == spec_deployment_record(
                    deployments_view(s.deployments@)[j],
                ),
        decreases s.deployments.len() - i,
    {
        let d = &s.deployments[i];
        let r = deployment_to_record(d);
        let ghost old_rs = rs@;
        rs.push(r);
        proof {
            assert(*d == s.deployments@[i as int]);
            assert(r@ == spec_deployment_record(s.deployments@[i as int]@));
            assert(records_view(rs@)[i as int] == r@);
            assert(deployments_view(s.deployments@)[i as int] == s.deployments@[i as int]@);
            assert(forall|j: int|
                #![trigger records_view(rs@)[j]]
                0 <= j < i ==> records_view(rs@)[j] == records_view(old_rs)[j]);
            assert(records_view(rs@)[i as int] == spec_deployment_record(
                deployments_view(s.deployments@)[i as int],
            ));
            assert(forall|j: int|
                #![trigger records_view(rs@)[j]]
                0 <= j < i + 1 ==> records_view(rs@)[j] == spec_deployment_record(
                    deployments_view(s.deployments@)[j],
                ));
        }
        i += 1;
    }
    proof {
        assert(records_view(rs@) =~= s@.deployments.map_values(
            |d: DeploymentV| spec_deployment_record(d),
        ));
    }
    let mut top: Vec<(String, TopValue)> = Vec::new();
    top.push((String::from_str("deployments"), TopValue::Arr(rs)));
    let doc = Doc::Obj(top);
    proof {
        assert(crate::json::top_fields_view(top@) =~= spec_status_doc(s@)->Obj_0);
    }
    doc
}

/// The eight field names of the schema are pairwise distinct.
proof fn lemma_field_keys_distinct()
    ensures
        "booted"@ != "checksum"@,
        "booted"@ != "origin"@,
        "booted"@ != "osname"@,
        "booted"@ != "pinned"@,
        "booted"@ != "serial"@,
        "booted"@ != "staged"@,
        "booted"@ != "unlocked"@,
        "checksum"@ != "origin"@,
        "checksum"@ != "osname"@,
        "checksum"@ != "pinned"@,
        "checksum"@ != "serial"@,
        "checksum"@ != "staged"@,
        "checksum"@ != "unlocked"@,
        "origin"@ != "osname"@,
        "origin"@ != "pinned"@,
        "origin"@ != "serial"@,
        "origin"@ != "staged"@,
        "origin"@ != "unlocked"@,
        "osname"@ != "pinned"@,
        "osname"@ != "serial"@,
        "osname"@ != "staged"@,
        "osname"@ != "unlocked"@,
        "pinned"@ != "serial"@,
        "pinned"@ != "staged"@,
        "pinned"@ != "unlocked"@,
        "serial"@ != "staged"@,
        "serial"@ != "unlocked"@,
        "staged"@ != "unlocked"@,
{
    reveal_strlit("booted");
    reveal_strlit("checksum");
    reveal_strlit("origin");
    reveal_strlit("osname");
    reveal_strlit("pinned");
    reveal_strlit("serial");
    reveal_strlit("staged");
    reveal_strlit("unlocked");
    assert("booted"@[0] == 'b' && "checksum"@[0] == 'c' && "origin"@[0] == 'o' && "osname"@[0]
        == 'o' && "pinned"@[0] == 'p' && "serial"@[0] == 's' && "staged"@[0] == 's'
        && "unlocked"@[0] == 'u');
    assert("origin"@[1] == 'r' && "osname"@[1] == 's' && "serial"@[1] == 'e' && "staged"@[1]
        == 't');
}

/// Round trip for one deployment: the record it encodes to decodes back
/// to the same deployment.
pub proof fn lemma_deployment_round_trip(d: DeploymentV)
    ensures
        spec_deployment_of(spec_deployment_record(d)) == Some(d),
{
    lemma_field_keys_distinct();
    reveal_with_fuel(lookup_scalar_from, 10);
    let f = spec_deployment_fields(d);
    assert(lookup_scalar(f, "booted"@) == Some(ScalarV::Bool(d.booted)));
    assert(lookup_scalar(f, "checksum"@) == Some(ScalarV::Str(d.checksum)));
    assert(lookup_scalar(f, "origin"@) == Some(ScalarV::Str(d.origin)));
    assert(lookup_scalar(f, "osname"@) == Some(ScalarV::Str(d.osname)));
    assert(lookup_scalar(f, "pinned"@) == Some(ScalarV::Bool(d.pinned)));
    assert(lookup_scalar(f, "serial"@) == Some(ScalarV::UInt(d.serial as u64)));
    assert(lookup_scalar(f, "staged"@) == Some(spec_opt_bool_scalar(d.staged)));
    assert(lookup_scalar(f, "unlocked"@) == Some(spec_opt_str_scalar(d.unlocked)));
    assert(spec_deployment_of(spec_deployment_record(d)) matches Some(e) && e =~= d);
}

/// Round trip for the deployment list, entry by entry.
proof fn lemma_deployments_round_trip(ds: Seq<DeploymentV>, i: int)
    requires
        0 <= i <= ds.len(),
    ensures
        spec_deployments_from(ds.map_values(|d: DeploymentV| spec_deployment_record(d)), i)
            == Some(ds.subrange(i, ds.len() as int)),
    decreases ds.len() - i,
{
    let rs = ds.map_values(|d: DeploymentV| spec_deployment_record(d));
    if i == ds.len() {
        assert(ds.subrange(i, ds.len() as int) =~= Seq::<DeploymentV>::empty());
    } else {
        lemma_deployment_round_trip(ds[i]);
        lemma_deployments_round_trip(ds, i + 1);
        assert(seq![ds[i]] + ds.subrange(i + 1, ds.len() as int) =~= ds.subrange(
            i,
            ds.len() as int,
        ));
    }
}

/// Round-trip law: any status snapshot, encoded as a document, decodes
/// back to an equal snapshot, deployment order preserved.
pub proof fn lemma_status_round_trip(s: StatusV)
    ensures
        spec_status_of(spec_status_doc(s)) == Some(s),
{
    let rs = s.deployments.map_values(|d: DeploymentV| spec_deployment_record(d));
    let top = spec_status_doc(s)->Obj_0;
    assert(lookup_top(top, "deployments"@) == Some(TopValueV::Arr(rs)));
    lemma_deployments_round_trip(s.deployments, 0);
    assert(s.deployments.subrange(0, s.deployments.len() as int) =~= s.deployments);
    assert(spec_status_of(spec_status_doc(s)) matches Some(t) && t =~= s);
}

/// The names of the required deployment fields.
pub open spec fn required_field_keys() -> Seq<Seq<char>> {
    seq!["osname"@, "checksum"@, "origin"@, "serial"@, "booted"@, "pinned"@]
}

/// The names of all deployment fields the schema knows.
pub open spec fn known_field_keys() -> Seq<Seq<char>> {
    seq![
        "osname"@,
        "checksum"@,
        "origin"@,
        "serial"@,
        "booted"@,
        "pinned"@,
        "staged"@,
        "unlocked"@,
    ]
}

/// Missing-field law: a deployment record that lacks any required field
/// is rejected whole — no partially populated deployment is ever produced.
pub proof fn lemma_missing_required_field_fails(f: Seq<(Seq<char>, ScalarV)>, key: Seq<char>)
    requires
        required_field_keys().contains(key),
        lookup_scalar(f, key) is None,
    ensures
        spec_deployment_of(RecordV::Obj(f)) is None,
{
    if key == "osname"@ {
    } else if key == "checksum"@ {
    } else if key == "origin"@ {
    } else if key == "serial"@ {
    } else if key == "booted"@ {
    } else if key == "pinned"@ {
    } else {
        assert(forall|j: int|
            0 <= j < required_field_keys().len() ==> required_field_keys()[j] != key);
        assert(false);
    }
}

/// A deployment list with one undecodable entry is rejected whole.
proof fn lemma_bad_entry_fails_from(rs: Seq<RecordV>, i: int, j: int)
    requires
        0 <= j <= i < rs.len(),
        spec_deployment_of(rs[i]) is None,
    ensures
        spec_deployments_from(rs, j) is None,
    decreases i - j,
{
    if j < i {
        lemma_bad_entry_fails_from(rs, i, j + 1);
    }
}

/// Missing-field law at the document level: a document whose deployment
/// list holds an entry lacking a required field decodes to nothing.
pub proof fn lemma_missing_required_field_fails_status(
    doc: DocV,
    rs: Seq<RecordV>,
    i: int,
    key: Seq<char>,
)
    requires
        doc matches DocV::Obj(top) && lookup_top(top, "deployments"@) == Some(
            TopValueV::Arr(rs),
        ),
        0 <= i < rs.len(),
        rs[i] matches RecordV::Obj(f) && required_field_keys().contains(key) && lookup_scalar(
            f,
            key,
        ) is None,
    ensures
        spec_status_of(doc) is None,
{
    lemma_missing_required_field_fails(rs[i]->Obj_0, key);
    lemma_bad_entry_fails_from(rs, i, 0);
}

/// Looking a key up is unmoved by inserting a field under a different key,
/// searching from any position at or before the insertion point.
proof fn lemma_lookup_insert_before(
    f: Seq<(Seq<char>, ScalarV)>,
    i: int,
    key: Seq<char>,
    v: ScalarV,
    k: Seq<char>,
    j: int,
)
    requires
        0 <= j <= i <= f.len(),
        k != key,
    ensures
        lookup_scalar_from(f.insert(i, (key, v)), k, j) == lookup_scalar_from(f, k, j),
    decreases f.len() - j,
{
    let g = f.insert(i, (key, v));
    f.insert_ensures(i, (key, v));
    if j == i {
        lemma_lookup_insert_after(f, i, key, v, k, j + 1);
    } else {
        if f[j].0 == k {
        } else {
            lemma_lookup_insert_before(f, i, key, v, k, j + 1);
        }
    }
}

/// Looking a key up past the insertion point matches the original list,
/// one position earlier.
proof fn lemma_lookup_insert_after(
    f: Seq<(Seq<char>, ScalarV)>,
    i: int,
    key: Seq<char>,
    v: ScalarV,
    k: Seq<char>,
    j: int,
)
    requires
        0 <= i <= f.len(),
        i < j <= f.len() + 1,
    ensures
        lookup_scalar_from(f.insert(i, (key, v)), k, j) == lookup_scalar_from(f, k, j - 1),
    decreases f.len() + 1 - j,
{
    let g = f.insert(i, (key, v));
    f.insert_ensures(i, (key, v));
    if j < g.len() {
        if g[j].0 == k {
        } else {
            lemma_lookup_insert_after(f, i, key, v, k, j + 1);
        }
    }
}

/// Unknown-field law: inserting a field under a name the schema does not
/// know, anywhere in a deployment record, changes nothing about what the
/// record decodes to — the extra field is ignored.
pub proof fn lemma_unknown_field_ignored(
    f: Seq<(Seq<char>, ScalarV)>,
    i: int,
    key: Seq<char>,
    v: ScalarV,
)
    requires
        0 <= i <= f.len(),
        !known_field_keys().contains(key),
    ensures
        spec_deployment_of(RecordV::Obj(f.insert(i, (key, v)))) == spec_deployment_of(
            RecordV::Obj(f),
        ),
{
    assert(forall|j: int| 0 <= j < known_field_keys().len() ==> known_field_keys()[j] != key);
    assert("osname"@ != key) by {
        assert(known_field_keys()[0] == "osname"@);
    }
    assert("checksum"@ != key) by {
        assert(known_field_keys()[1] == "checksum"@);
    }
    assert("origin"@ != key) by {
        assert(known_field_keys()[2] == "origin"@);
    }
    assert("serial"@ != key) by {
        assert(known_field_keys()[3] == "serial"@);
    }
    assert("booted"@ != key) by {
        assert(known_field_keys()[4] == "booted"@);
    }
    assert("pinned"@ != key) by {
        assert(known_field_keys()[5] == "pinned"@);
    }
    assert("staged"@ != key) by {
        assert(known_field_keys()[6] == "staged"@);
    }
    assert("unlocked"@ != key) by {
        assert(known_field_keys()[7] == "unlocked"@);
    }
    lemma_lookup_insert_before(f, i, key, v, "osname"@, 0);
    lemma_lookup_insert_before(f, i, key, v, "checksum"@, 0);
    lemma_lookup_insert_before(f, i, key, v, "origin"@, 0);
    lemma_lookup_insert_before(f, i, key, v, "serial"@, 0);
    lemma_lookup_insert_before(f, i, key, v, "booted"@, 0);
    lemma_lookup_insert_before(f, i, key, v, "pinned"@, 0);
    lemma_lookup_insert_before(f, i, key, v, "staged"@, 0);
    lemma_lookup_insert_before(f, i, key, v, "unlocked"@, 0);
}

} // verus!
