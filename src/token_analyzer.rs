use vstd::prelude::*;

verus! {

pub struct InstantiateMsg {
    pub admin: Option<String>,
}

pub enum ExecuteMsg {
    AnalyzeToken { denom: String },
    UpdateTokenInfo { denom: String, info: TokenInfo },
}

pub enum QueryMsg {
    GetTokenAnalysis { denom: String },
    GetTokenInfo { denom: String },
    ListTokens {},
}

/// What is known of a token.
#[derive(Clone, Debug)]
pub struct TokenInfo {
    pub denom: String,
    pub name: String,
    pub symbol: String,
    pub decimals: u32,
    pub total_supply: String,
    pub is_native: bool,
    pub is_ibc: bool,
    pub is_cw20: bool,
    pub description: Option<String>,
    pub image: Option<String>,
    pub website: Option<String>,
    pub twitter: Option<String>,
    pub telegram: Option<String>,
}

/// A token's information with its assessed risk.
#[derive(Clone, Debug)]
pub struct TokenAnalysis {
    pub token_info: TokenInfo,
    pub risk_level: String,
    pub is_verified: bool,
    pub warnings: Vec<String>,
    pub last_analyzed: u64,
}

/// One unit of a denomination, as the bank describes it.
#[derive(Clone, Debug)]
pub struct DenomUnit {
    pub denom: String,
    pub exponent: u32,
    pub aliases: Vec<String>,
}

/// A denomination's metadata, as the bank describes it.
#[derive(Clone, Debug)]
pub struct DenomMetadata {
    pub description: String,
    pub denom_units: Vec<DenomUnit>,
    pub base: String,
    pub display: String,
    pub name: String,
    pub symbol: String,
}

/// `pat` occurs in `s`.
pub open spec fn has_infix(s: Seq<char>, pat: Seq<char>) -> bool {
    exists|i: int|
        0 <= i && i + pat.len() <= s.len() && #[trigger] s.subrange(i, i + pat.len()) == pat
}

/// `s` begins with `pat`.
pub open spec fn has_prefix(s: Seq<char>, pat: Seq<char>) -> bool {
    pat.len() <= s.len() && s.subrange(0, pat.len() as int) == pat
}

/// Relies on str::contains: true exactly when `pat` occurs in `s`.
#[verifier::external_body]
fn str_contains(s: &str, pat: &str) -> (r: bool)
    ensures
        r == has_infix(s@, pat@),
{
    s.contains(pat)
}

/// Relies on str::starts_with: true exactly when `s` begins with `pat`.
#[verifier::external_body]
fn str_starts_with(s: &str, pat: &str) -> (r: bool)
    ensures
        r == has_prefix(s@, pat@),
{
    s.starts_with(pat)
}

pub open spec fn is_suspicious(denom: Seq<char>) -> bool {
    has_infix(denom, "scam"@) || has_infix(denom, "fake"@)
}

/// The risk score of a token: suspicious words and very long names (over 50 bytes) add to
/// it, a native token takes from it, IBC and CW20 tokens add to it.
pub open spec fn risk_score(denom: Seq<char>, byte_len: nat, info: TokenInfo) -> int {
    (if is_suspicious(denom) {
        50int
    } else {
        0int
    }) + (if byte_len > 50 {
        20int
    } else {
        0int
    }) - (if info.is_native {
        30int
    } else {
        0int
    }) + (if info.is_ibc {
        10int
    } else {
        0int
    }) + (if info.is_cw20 {
        15int
    } else {
        0int
    })
}

/// The level that a score falls in.
pub open spec fn risk_level(score: int) -> Seq<char> {
    if score >= 50 {
        "high"@
    } else if score >= 20 {
        "medium"@
    } else {
        "low"@
    }
}

/// The warnings for a token, in the order the checks run.
pub open spec fn risk_warnings(denom: Seq<char>, byte_len: nat, info: TokenInfo) -> Seq<
    Seq<char>,
> {
    let w0 = Seq::<Seq<char>>::empty();
    let w1 = if is_suspicious(denom) {
        w0.push("Token denom contains suspicious keywords"@)
    } else {
        w0
    };
    let w2 = if byte_len > 50 {
        w1.push("Unusually long token denom"@)
    } else {
        w1
    };
    let w3 = if info.is_ibc {
        w2.push("IBC token - verify source chain and token authenticity"@)
    } else {
        w2
    };
    if info.is_cw20 {
        w3.push("CW20 token - verify contract code and ownership"@)
    } else {
        w3
    }
}

pub open spec fn views(s: Seq<String>) -> Seq<Seq<char>> {
    s.map_values(|x: String| x@)
}

fn push_text(v: &mut Vec<String>, text: &str)
    ensures
        views(final(v)@) == views(old(v)@).push(text@),
{
    v.push(String::from_str(text));
    assert(views(final(v)@) =~= views(old(v)@).push(text@));
}

/// The risk level of a token and the warnings that led to it.
pub fn analyze_token_risk(denom: &str, token_info: &TokenInfo) -> (r: (String, Vec<String>))
    ensures
        r.0@ == risk_level(risk_score(denom@, denom.len() as nat, *token_info)),
        views(r.1@) == risk_warnings(denom@, denom.len() as nat, *token_info),
{
    let ghost bytes = denom.len() as nat;
    let mut warnings: Vec<String> = Vec::new();
    let mut score: i32 = 0;
    assert(views(warnings@) =~= Seq::<Seq<char>>::empty());
    let suspicious = str_contains(denom, "scam") || str_contains(denom, "fake");
    assert(suspicious == is_suspicious(denom@));
    if suspicious {
        push_text(&mut warnings, "Token denom contains suspicious keywords");
        score = score + 50;
    }
    if denom.len() > 50 {
        push_text(&mut warnings, "Unusually long token denom");
        score = score + 20;
    }
    if token_info.is_native {
        score = score - 30;
    }
    if token_info.is_ibc {
        push_text(&mut warnings, "IBC token - verify source chain and token authenticity");
        score = score + 10;
    }
    if token_info.is_cw20 {
        push_text(&mut warnings, "CW20 token - verify contract code and ownership");
        score = score + 15;
    }
    assert(score == risk_score(denom@, bytes, *token_info));
    assert(views(warnings@) == risk_warnings(denom@, bytes, *token_info));
    let level = if score >= 50 {
        String::from_str("high")
    } else if score >= 20 {
        String::from_str("medium")
    } else {
        String::from_str("low")
    };
    (level, warnings)
}

/// The denominations known to be genuine.
pub open spec fn verified_denoms() -> Seq<Seq<char>> {
    seq!["usei"@]
}

/// Whether a denomination is on the list of verified tokens.
pub fn is_token_verified(denom: &str) -> (r: bool)
    ensures
        r == verified_denoms().contains(denom@),
{
    let known = String::from_str("usei");
    let d = String::from_str(denom);
    let r = d == known;
    assert(r ==> verified_denoms()[0] == denom@);
    assert(verified_denoms().contains(denom@) ==> verified_denoms()[0] == denom@);
    r
}

/// The exponent of the unit named `denom`, from the first such unit; 6 where none is.
pub open spec fn unit_exponent(units: Seq<DenomUnit>, denom: Seq<char>) -> u32
    decreases units.len(),
{
    if units.len() == 0 {
        6
    } else if units[0].denom@ == denom {
        units[0].exponent
    } else {
        unit_exponent(units.drop_first(), denom)
    }
}

fn find_exponent(units: &Vec<DenomUnit>, denom: &str) -> (r: u32)
    ensures
        r == unit_exponent(units@, denom@),
{
    let d = String::from_str(denom);
    let mut i: usize = 0;
    assert(units@.subrange(0, units@.len() as int) =~= units@);
    while i < units.len()
        invariant
            i <= units@.len(),
            d@ == denom@,
            unit_exponent(units@.subrange(i as int, units@.len() as int), denom@) == unit_exponent(
                units@,
                denom@,
            ),
        decreases units@.len() - i,
    {
        let ghost rest = units@.subrange(i as int, units@.len() as int);
        assert(rest.drop_first() =~= units@.subrange(i + 1, units@.len() as int));
        if units[i].denom == d {
            return units[i].exponent;
        }
        i = i + 1;
    }
    6
}

/// What the router learns of a token from its bank metadata.
pub fn token_info_from_metadata(denom: &str, metadata: DenomMetadata) -> (r: TokenInfo)
    ensures
        r.denom@ == denom@,
        r.name == metadata.name,
        r.symbol == metadata.symbol,
        r.decimals == unit_exponent(metadata.denom_units@, denom@),
        r.total_supply@ == "0"@,
        r.is_native == (denom@ == "usei"@),
        r.is_ibc == has_prefix(denom@, "ibc/"@),
        r.is_cw20 == has_prefix(denom@, "sei1"@),
        r.description == Some(metadata.description),
        r.image is None,
        r.website is None,
        r.twitter is None,
        r.telegram is None,
{
    let decimals = find_exponent(&metadata.denom_units, denom);
    let name = String::from_str(denom);
    let native = String::from_str("usei");
    TokenInfo {
        denom: String::from_str(denom),
        name: metadata.name,
        symbol: metadata.symbol,
        decimals,
        total_supply: String::from_str("0"),
        is_native: name == native,
        is_ibc: str_starts_with(denom, "ibc/"),
        is_cw20: str_starts_with(denom, "sei1"),
        description: Some(metadata.description),
        image: None,
        website: None,
        twitter: None,
        telegram: None,
    }
}

/// The analysis of a token from its information, made at time `now`.
pub fn analyze_native_token(denom: &str, token_info: TokenInfo, now: u64) -> (r: TokenAnalysis)
    ensures
        r.token_info == token_info,
        r.risk_level@ == risk_level(risk_score(denom@, denom.len() as nat, token_info)),
        views(r.warnings@) == risk_warnings(denom@, denom.len() as nat, token_info),
        r.is_verified == verified_denoms().contains(denom@),
        r.last_analyzed == now,
{
    let (risk_level, warnings) = analyze_token_risk(denom, &token_info);
    let is_verified = is_token_verified(denom);
    TokenAnalysis { token_info, risk_level, is_verified, warnings, last_analyzed: now }
}

/// The stored analysis with new token information; a token without one starts unverified,
/// of unknown risk, without warnings. The time of analysis is reset to zero.
pub fn update_token_info(existing: Option<TokenAnalysis>, token_info: TokenInfo) -> (r:
    TokenAnalysis)
    ensures
        r.token_info == token_info,
        r.last_analyzed == 0,
        match existing {
            Some(a) => r.risk_level == a.risk_level && r.is_verified == a.is_verified
                && r.warnings == a.warnings,
            None => r.risk_level@ == "unknown"@ && !r.is_verified && r.warnings@.len() == 0,
        },
{
    match existing {
        Some(a) => TokenAnalysis {
            token_info,
            risk_level: a.risk_level,
            is_verified: a.is_verified,
            warnings: a.warnings,
            last_analyzed: 0,
        },
        None => TokenAnalysis {
            token_info,
            risk_level: String::from_str("unknown"),
            is_verified: false,
            warnings: Vec::new(),
            last_analyzed: 0,
        },
    }
}

} // verus!
