//! Decoding of sourcemap documents, delegated to the `sourcemap` crate, and the
//! per-source checks that a decoded sourcemap calls for.
use vstd::prelude::*;
use sourcemap::{SourceMap, SourceMapHermes, SourceMapIndex};
use crate::text::opt_view;
use crate::urls::{joined, join_url};

verus! {

#[verifier::external_type_specification]
#[verifier::external_body]
pub struct ExSourceMap(sourcemap::SourceMap);

#[verifier::external_type_specification]
#[verifier::external_body]
pub struct ExSourceMapIndex(sourcemap::SourceMapIndex);

#[verifier::external_type_specification]
#[verifier::external_body]
pub struct ExSourceMapHermes(sourcemap::SourceMapHermes);

#[verifier::external_type_specification]
#[verifier::external_body]
pub struct ExSourcemapError(sourcemap::Error);

/// The sources of a regular sourcemap, as `(name, embedded contents)` pairs, at the
/// indices below the map's source count.
pub uninterp spec fn map_sources(m: SourceMap) -> Seq<(Option<Seq<char>>, Option<Seq<char>>)>;

/// The number of tokens of a regular sourcemap.
pub uninterp spec fn map_tokens(m: SourceMap) -> nat;

/// Whether the bytes pass the `sourcemap` crate's syntactic sniff test.
pub uninterp spec fn sniffs_as_sourcemap(b: Seq<u8>) -> bool;

/// A sourcemap document as the codec decodes it.
pub enum RawMap {
    Regular(SourceMap),
    Index(SourceMapIndex),
    Hermes(SourceMapHermes),
}

/// Relies on `sourcemap::is_sourcemap_slice`: the sniff test, which depends on the
/// bytes alone.
#[verifier::external_body]
fn sniff_sourcemap(bytes: &[u8]) -> (r: bool)
    ensures
        r == sniffs_as_sourcemap(bytes@),
{
    sourcemap::is_sourcemap_slice(bytes)
}

/// Whether the bytes decode as a sourcemap document.
pub uninterp spec fn decodes(b: Seq<u8>) -> bool;

/// Whether the bytes decode as an index map.
pub uninterp spec fn decoded_index(b: Seq<u8>) -> bool;

/// The sources of the map the bytes decode to: of the regular map, or of the result
/// of flattening the index map.
pub uninterp spec fn decoded_sources(b: Seq<u8>) -> Seq<(Option<Seq<char>>, Option<Seq<char>>)>;

/// The token count of the map the bytes decode to, counted as for `decoded_sources`.
pub uninterp spec fn decoded_tokens(b: Seq<u8>) -> nat;

/// The section offsets of the index map the bytes decode to.
pub uninterp spec fn decoded_offsets(b: Seq<u8>) -> Seq<(u32, u32)>;

/// The section maps of the index map the bytes decode to, as in `section_maps`.
pub uninterp spec fn decoded_section_maps(b: Seq<u8>) -> Seq<Option<bool>>;

/// The section tokens of the index map the bytes decode to, as in `section_tokens`.
pub uninterp spec fn decoded_section_tokens(b: Seq<u8>) -> Seq<Seq<(u32, u32)>>;

/// The `(line, column)` offsets of the sections of an index map, below its section count.
pub uninterp spec fn section_offsets(i: SourceMapIndex) -> Seq<(u32, u32)>;

/// For each section of an index map: `None` where it holds no map, `Some(true)` where
/// its map is itself an index, `Some(false)` where it is a regular (or Hermes) map.
pub uninterp spec fn section_maps(i: SourceMapIndex) -> Seq<Option<bool>>;

/// For each section of an index map, the `(line, column)` destinations of the tokens
/// of its regular map (empty for other sections).
pub uninterp spec fn section_tokens(i: SourceMapIndex) -> Seq<Seq<(u32, u32)>>;

/// The sources of the regular map that flattening an index map gives.
pub uninterp spec fn flattened_sources(i: SourceMapIndex) -> Seq<(Option<Seq<char>>, Option<Seq<char>>)>;

/// The token count of the regular map that flattening an index map gives.
pub uninterp spec fn flattened_tokens(i: SourceMapIndex) -> nat;

/// The sources of the regular map inside a Hermes map.
pub uninterp spec fn hermes_sources(h: SourceMapHermes) -> Seq<(Option<Seq<char>>, Option<Seq<char>>)>;

/// The token count of the regular map inside a Hermes map.
pub uninterp spec fn hermes_tokens(h: SourceMapHermes) -> nat;

/// Relies on `sourcemap::decode_slice`, telling its three shapes apart. The decoded
/// value depends on the bytes alone.
#[verifier::external_body]
fn decode_raw(bytes: &[u8]) -> (r: Result<RawMap, sourcemap::Error>)
    ensures
        r is Ok <==> decodes(bytes@),
        r matches Ok(raw) ==> (raw is Index <==> decoded_index(bytes@)),
        r matches Ok(RawMap::Regular(m)) ==> map_sources(m) == decoded_sources(bytes@)
            && map_tokens(m) == decoded_tokens(bytes@),
        r matches Ok(RawMap::Hermes(h)) ==> hermes_sources(h) == decoded_sources(bytes@)
            && hermes_tokens(h) == decoded_tokens(bytes@),
        r matches Ok(RawMap::Index(i)) ==> section_offsets(i) == decoded_offsets(bytes@)
            && section_maps(i) == decoded_section_maps(bytes@) && section_tokens(i)
            == decoded_section_tokens(bytes@) && flattened_sources(i) == decoded_sources(bytes@)
            && flattened_tokens(i) == decoded_tokens(bytes@),
{
    match sourcemap::decode_slice(bytes) {
        Ok(sourcemap::DecodedMap::Regular(m)) => Ok(RawMap::Regular(m)),
        Ok(sourcemap::DecodedMap::Index(i)) => Ok(RawMap::Index(i)),
        Ok(sourcemap::DecodedMap::Hermes(h)) => Ok(RawMap::Hermes(h)),
        Err(e) => Err(e),
    }
}

/// Relies on `sourcemap::SourceMapIndex::get_section_count`.
#[verifier::external_body]
fn section_count(i: &SourceMapIndex) -> (r: u32)
    ensures
        r == section_offsets(*i).len(),
        r == section_maps(*i).len(),
        r == section_tokens(*i).len(),
{
    i.get_section_count()
}

/// Relies on `sourcemap::SourceMapIndex::get_section` and `SourceMapSection::get_offset`.
#[verifier::external_body]
fn section_offset(i: &SourceMapIndex, s: u32) -> (r: (u32, u32))
    requires
        s < section_offsets(*i).len(),
    ensures
        r == section_offsets(*i)[s as int],
{
    i.get_section(s).map(|x| x.get_offset()).unwrap_or((0, 0))
}

/// Relies on `sourcemap::SourceMapIndex::get_section` and
/// `SourceMapSection::get_sourcemap`, telling the shapes of the section's map apart.
#[verifier::external_body]
fn section_map(i: &SourceMapIndex, s: u32) -> (r: Option<bool>)
    requires
        s < section_maps(*i).len(),
    ensures
        r == section_maps(*i)[s as int],
{
    match i.get_section(s).and_then(|x| x.get_sourcemap()) {
        Some(sourcemap::DecodedMap::Index(_)) => Some(true),
        Some(_) => Some(false),
        None => None,
    }
}

/// Relies on `SourceMapSection::get_sourcemap`, `SourceMap::get_token` and
/// `Token::get_dst`: the destination of token `t` of a section's regular map.
#[verifier::external_body]
fn section_token(i: &SourceMapIndex, s: u32, t: usize) -> (r: Option<(u32, u32)>)
    requires
        s < section_tokens(*i).len(),
        section_maps(*i)[s as int] == Some(false),
    ensures
        t < section_tokens(*i)[s as int].len() ==> r == Some(section_tokens(*i)[s as int][t as int]),
        t >= section_tokens(*i)[s as int].len() ==> r is None,
        r is Some ==> t < usize::MAX,
{
    match i.get_section(s).and_then(|x| x.get_sourcemap()) {
        Some(sourcemap::DecodedMap::Regular(m)) => m.get_token(t).map(|k| k.get_dst()),
        Some(sourcemap::DecodedMap::Hermes(h)) => h.get_token(t).map(|k| k.get_dst()),
        _ => None,
    }
}

/// Whether a section can be flattened: it holds a regular map, and its offset added to
/// each token's destination (the column only on the map's first line) fits in `u32`.
pub open spec fn section_fits(off: (u32, u32), map: Option<bool>, toks: Seq<(u32, u32)>) -> bool {
    &&& map == Some(false)
    &&& forall|t: int|
        0 <= t < toks.len() ==> #[trigger] toks[t].0 + off.0 <= u32::MAX && (toks[t].0 == 0
            ==> toks[t].1 + off.1 <= u32::MAX)
}

/// Whether an index map with these sections is supported: every section fits.
pub open spec fn flattenable(
    offs: Seq<(u32, u32)>,
    maps: Seq<Option<bool>>,
    toks: Seq<Seq<(u32, u32)>>,
) -> bool {
    &&& offs.len() == maps.len() && offs.len() == toks.len()
    &&& forall|s: int| 0 <= s < offs.len() ==> #[trigger] section_fits(offs[s], maps[s], toks[s])
}

/// Whether the index map `i` is supported.
pub open spec fn index_supported(i: SourceMapIndex) -> bool {
    flattenable(section_offsets(i), section_maps(i), section_tokens(i))
}

/// Relies on `sourcemap::SourceMapIndex::flatten`. Where every section holds a regular
/// map and no offset sum overflows, it neither fails nor panics.
#[verifier::external_body]
fn flatten_index(i: &SourceMapIndex) -> (r: Result<SourceMap, sourcemap::Error>)
    requires
        index_supported(*i),
    ensures
        r is Ok,
        r matches Ok(m) ==> map_sources(m) == flattened_sources(*i),
        r matches Ok(m) ==> map_tokens(m) == flattened_tokens(*i),
{
    i.flatten()
}

/// Relies on the `Deref` of `sourcemap::SourceMapHermes` to its regular map.
#[verifier::external_body]
fn hermes_regular(h: &SourceMapHermes) -> (r: &SourceMap)
    ensures
        map_sources(*r) == hermes_sources(*h),
        map_tokens(*r) == hermes_tokens(*h),
{
    h
}

/// Whether the index map `i` is supported: each section holds a regular map whose
/// tokens stay addressable once moved by the section's offset.
pub fn is_index_supported(i: &SourceMapIndex) -> (r: bool)
    ensures
        r == index_supported(*i),
{
    let n = section_count(i);
    let mut s: u32 = 0;
    while s < n
        invariant
            n == section_offsets(*i).len(),
            n == section_maps(*i).len(),
            n == section_tokens(*i).len(),
            s <= n,
            forall|k: int|
                0 <= k < s ==> #[trigger] section_fits(
                    section_offsets(*i)[k],
                    section_maps(*i)[k],
                    section_tokens(*i)[k],
                ),
        decreases n - s,
    {
        if section_map(i, s) != Some(false) {
            assert(!section_fits(
                section_offsets(*i)[s as int],
                section_maps(*i)[s as int],
                section_tokens(*i)[s as int],
            ));
            return false;
        }
        let off = section_offset(i, s);
        let ghost toks = section_tokens(*i)[s as int];
        let mut t: usize = 0;
        let mut done = false;
        while !done
            invariant
                s < n,
                n == section_offsets(*i).len(),
                n == section_maps(*i).len(),
                n == section_tokens(*i).len(),
                section_maps(*i)[s as int] == Some(false),
                toks == section_tokens(*i)[s as int],
                off == section_offsets(*i)[s as int],
                t <= toks.len(),
                done ==> t == toks.len(),
                forall|k: int|
                    0 <= k < t ==> #[trigger] toks[k].0 + off.0 <= u32::MAX && (toks[k].0 == 0
                        ==> toks[k].1 + off.1 <= u32::MAX),
            decreases toks.len() - t, if done { 0int } else { 1int },
        {
            match section_token(i, s, t) {
                Some((line, col)) => {
                    if line as u64 + off.0 as u64 > u32::MAX as u64 {
                        assert(toks[t as int] == (line, col));
                        assert(!section_fits(off, section_maps(*i)[s as int], toks));
                        return false;
                    }
                    if line == 0 && col as u64 + off.1 as u64 > u32::MAX as u64 {
                        assert(toks[t as int] == (line, col));
                        assert(!section_fits(off, section_maps(*i)[s as int], toks));
                        return false;
                    }
                    t = t + 1;
                },
                None => {
                    done = true;
                },
            }
        }
        s = s + 1;
    }
    true
}

/// Relies on `sourcemap::SourceMap::get_source_count`.
#[verifier::external_body]
fn source_count(m: &SourceMap) -> (r: u32)
    ensures
        r == map_sources(*m).len(),
{
    m.get_source_count()
}

/// Relies on `sourcemap::SourceMap::get_token_count`.
#[verifier::external_body]
fn token_count(m: &SourceMap) -> (r: u32)
    ensures
        r == map_tokens(*m),
{
    m.get_token_count()
}

/// Relies on `sourcemap::SourceMap::get_source`.
#[verifier::external_body]
fn source_name(m: &SourceMap, idx: u32) -> (r: Option<String>)
    requires
        idx < map_sources(*m).len(),
    ensures
        opt_view(r) == map_sources(*m)[idx as int].0,
{
    m.get_source(idx).map(|s| s.to_string())
}

/// Relies on `sourcemap::SourceMap::get_source_contents`.
#[verifier::external_body]
fn source_contents(m: &SourceMap, idx: u32) -> (r: Option<String>)
    requires
        idx < map_sources(*m).len(),
    ensures
        opt_view(r) == map_sources(*m)[idx as int].1,
{
    m.get_source_contents(idx).map(|s| s.to_string())
}

/// The shape a sourcemap document had before any flattening.
#[derive(PartialEq, Eq, Structural, Clone, Copy, Debug)]
pub enum MapKind {
    Regular,
    Index,
}

/// One source of a sourcemap: its reference, if any, and its embedded contents.
pub struct SourceEntry {
    pub name: Option<String>,
    pub contents: Option<String>,
}

impl SourceEntry {
    pub open spec fn view(self) -> (Option<Seq<char>>, Option<Seq<char>>) {
        (opt_view(self.name), opt_view(self.contents))
    }
}

/// A sourcemap reduced to what is analysed: its sources in order and its token count.
pub struct DecodedSourcemap {
    pub kind: MapKind,
    pub sources: Vec<SourceEntry>,
    pub token_count: u32,
}

impl DecodedSourcemap {
    pub open spec fn entries(self) -> Seq<(Option<Seq<char>>, Option<Seq<char>>)> {
        self.sources@.map_values(|e: SourceEntry| e.view())
    }

    /// Whether this holds exactly the sources and token count of the regular map `m`.
    pub open spec fn reads(self, m: SourceMap) -> bool {
        self.entries() == map_sources(m) && self.token_count == map_tokens(m)
    }
}

/// Why a sourcemap document could not be analysed.
#[derive(PartialEq, Eq, Structural, Clone, Copy, Debug)]
pub enum SourcemapError {
    /// The bytes fail the sniff test.
    Syntax,
    /// The bytes pass the sniff test but do not decode.
    Decode,
    /// An index map that cannot be flattened.
    IndexUnsupported,
}

/// Reads the sources and token count of a regular map.
pub fn read_map(m: &SourceMap, kind: MapKind) -> (d: DecodedSourcemap)
    ensures
        d.reads(*m),
        d.kind == kind,
{
    let n = source_count(m);
    let mut sources: Vec<SourceEntry> = Vec::new();
    let mut i: u32 = 0;
    while i < n
        invariant
            n == map_sources(*m).len(),
            i <= n,
            sources@.len() == i,
            forall|j: int| 0 <= j < i ==> (#[trigger] sources@[j]).view() == map_sources(*m)[j],
        decreases n - i,
    {
        let name = source_name(m, i);
        let contents = source_contents(m, i);
        sources.push(SourceEntry { name, contents });
        i = i + 1;
    }
    let d = DecodedSourcemap { kind, sources, token_count: token_count(m) };
    assert(d.entries() =~= map_sources(*m));
    d
}

/// The analysable form of an index map, given the outcome of flattening it.
pub fn from_flattened(flat: Result<SourceMap, sourcemap::Error>) -> (r: Result<
    DecodedSourcemap,
    SourcemapError,
>)
    ensures
        match flat {
            Ok(m) => r matches Ok(d) && d.reads(m) && d.kind == MapKind::Index,
            Err(_) => r == Err::<DecodedSourcemap, SourcemapError>(SourcemapError::IndexUnsupported),
        },
{
    match flat {
        Ok(m) => Ok(read_map(&m, MapKind::Index)),
        Err(_) => Err(SourcemapError::IndexUnsupported),
    }
}

/// The analysable form of a decoded document: a regular map is read as it is, a
/// supported index map is flattened first.
pub fn from_raw(raw: &RawMap) -> (r: Result<DecodedSourcemap, SourcemapError>)
    ensures
        *raw matches RawMap::Regular(m) ==> (r matches Ok(d) && d.reads(m) && d.kind
            == MapKind::Regular),
        *raw matches RawMap::Index(i) ==> (index_supported(i) ==> (r matches Ok(d) && d.kind
            == MapKind::Index && d.entries() == flattened_sources(i) && d.token_count
            == flattened_tokens(i))) && (!index_supported(i) ==> r == Err::<
            DecodedSourcemap,
            SourcemapError,
        >(SourcemapError::IndexUnsupported)),
        *raw matches RawMap::Hermes(h) ==> (r matches Ok(d) && d.kind == MapKind::Regular
            && d.entries() == hermes_sources(h) && d.token_count == hermes_tokens(h)),
{
    match raw {
        RawMap::Regular(m) => Ok(read_map(m, MapKind::Regular)),
        RawMap::Index(i) => {
            if is_index_supported(i) {
                from_flattened(flatten_index(i))
            } else {
                Err(SourcemapError::IndexUnsupported)
            }
        },
        RawMap::Hermes(h) => Ok(read_map(hermes_regular(h), MapKind::Regular)),
    }
}

/// What decoding the bytes `b` owes: `Syntax` where the sniff test fails, `Decode`
/// where they do not decode, `IndexUnsupported` for an index map that cannot be
/// flattened, and otherwise the decoded (or flattened) map's sources and tokens.
pub open spec fn decode_result(b: Seq<u8>, r: Result<DecodedSourcemap, SourcemapError>) -> bool {
    if !sniffs_as_sourcemap(b) {
        r == Err::<DecodedSourcemap, SourcemapError>(SourcemapError::Syntax)
    } else if !decodes(b) {
        r == Err::<DecodedSourcemap, SourcemapError>(SourcemapError::Decode)
    } else if decoded_index(b) && !flattenable(
        decoded_offsets(b),
        decoded_section_maps(b),
        decoded_section_tokens(b),
    ) {
        r == Err::<DecodedSourcemap, SourcemapError>(SourcemapError::IndexUnsupported)
    } else {
        r matches Ok(d) && (d.kind == MapKind::Index <==> decoded_index(b)) && d.entries()
            == decoded_sources(b) && d.token_count == decoded_tokens(b)
    }
}

/// An index map with a section that holds no map, holds another index map, or would
/// overflow when moved by its offset is reported as unsupported, never as another
/// error; every other decodable map is analysed.
pub proof fn lemma_unsupported_index_reported(b: Seq<u8>, r: Result<DecodedSourcemap, SourcemapError>)
    requires
        decode_result(b, r),
        sniffs_as_sourcemap(b),
        decodes(b),
    ensures
        decoded_index(b) && !flattenable(decoded_offsets(b), decoded_section_maps(b), decoded_section_tokens(b))
            <==> r == Err::<DecodedSourcemap, SourcemapError>(SourcemapError::IndexUnsupported),
        r is Err ==> r == Err::<DecodedSourcemap, SourcemapError>(SourcemapError::IndexUnsupported),
{
}

/// Decodes a sourcemap document, flattening a supported index map into a regular one.
pub fn decode_sourcemap(bytes: &[u8]) -> (r: Result<DecodedSourcemap, SourcemapError>)
    ensures
        decode_result(bytes@, r),
{
    if !sniff_sourcemap(bytes) {
        return Err(SourcemapError::Syntax);
    }
    match decode_raw(bytes) {
        Ok(raw) => from_raw(&raw),
        Err(_) => Err(SourcemapError::Decode),
    }
}

/// What is to be done about one source of a sourcemap.
pub enum SourceCheck {
    /// The contents are embedded: nothing to check.
    Embedded,
    /// No contents: the source is to be probed at this URL.
    Scrape(String),
    /// No contents, and no usable reference for the source at this index.
    InvalidReference(usize),
}

/// Whether `c` is the check owed to the source `e` at index `i` of a sourcemap
/// served from `map_url`.
pub open spec fn check_for(
    c: SourceCheck,
    e: (Option<Seq<char>>, Option<Seq<char>>),
    map_url: Seq<char>,
    i: int,
) -> bool {
    if e.1 is Some {
        c is Embedded
    } else {
        match e.0 {
            Some(n) => match joined(map_url, n) {
                Some(u) => c matches SourceCheck::Scrape(s) && s@ == u,
                None => c matches SourceCheck::InvalidReference(k) && k == i,
            },
            None => c matches SourceCheck::InvalidReference(k) && k == i,
        }
    }
}

/// The check owed to each source of `map`, served from `map_url`, in order. A source
/// reference is resolved against the sourcemap's own URL.
pub fn plan_source_checks(map: &DecodedSourcemap, map_url: &str) -> (r: Vec<SourceCheck>)
    ensures
        r@.len() == map.sources@.len(),
        forall|i: int|
            0 <= i < r@.len() ==> check_for(#[trigger] r@[i], map.sources@[i].view(), map_url@, i),
        forall|i: int|
            0 <= i < r@.len() && (#[trigger] map.sources@[i]).contents is Some ==> r@[i] is Embedded,
{
    let mut r: Vec<SourceCheck> = Vec::new();
    let mut i: usize = 0;
    while i < map.sources.len()
        invariant
            i <= map.sources@.len(),
            r@.len() == i,
            forall|j: int|
                0 <= j < i ==> check_for(#[trigger] r@[j], map.sources@[j].view(), map_url@, j),
        decreases map.sources@.len() - i,
    {
        let e = &map.sources[i];
        let c = if e.contents.is_some() {
            SourceCheck::Embedded
        } else {
            match &e.name {
                Some(n) => match join_url(map_url, n.as_str()) {
                    Some(u) => SourceCheck::Scrape(u),
                    None => SourceCheck::InvalidReference(i),
                },
                None => SourceCheck::InvalidReference(i),
            }
        };
        r.push(c);
        i = i + 1;
    }
    r
}

/// Decodes the sourcemap document `body` served from `map_url` and plans the check
/// owed to each of its sources. Only a failure to decode or to flatten is an error:
/// what is found of single sources is reported in the checks.
pub fn validate_sourcemap(map_url: &str, body: &[u8]) -> (r: Result<
    (DecodedSourcemap, Vec<SourceCheck>),
    SourcemapError,
>)
    ensures
        match r {
            Ok((d, checks)) => decode_result(body@, Ok(d)) && checks@.len() == d.sources@.len()
                && forall|i: int|
                0 <= i < checks@.len() ==> check_for(
                    #[trigger] checks@[i],
                    d.sources@[i].view(),
                    map_url@,
                    i,
                ),
            Err(e) => decode_result(body@, Err(e)),
        },
{
    match decode_sourcemap(body) {
        Ok(d) => {
            let checks = plan_source_checks(&d, map_url);
            Ok((d, checks))
        },
        Err(e) => Err(e),
    }
}

} // verus!
