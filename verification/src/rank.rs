//! Ranking rules (WIZ_RANK 0x80): ranking orders, the event EXP previews and
//! the fixed-size ranking answers.
use vstd::prelude::*;
use crate::packet::{Packet, u8_le, u16_le, u32_le, u64_le, dbyte_string};

verus! {

/// WIZ_RANK opcode.
pub const WIZ_RANK: u8 = 0x80;

pub const RANK_TYPE_PK_ZONE: u8 = 1;
pub const RANK_TYPE_ZONE_BORDER_DEFENSE_WAR: u8 = 2;
pub const RANK_TYPE_CHAOS_DUNGEON: u8 = 3;

/// Premium loyalty bonuses are shown capped at this value.
pub const PREMIUM_BONUS_CAP: u16 = 999;

/// Border Defence War entries shown per nation.
pub const BDW_MAX_ENTRIES: usize = 8;

/// Chaos Dungeon entries shown.
pub const CHAOS_MAX_ENTRIES: usize = 19;

/// Cap of the premium EXP preview.
pub const PREMIUM_EXP_CAP: u64 = 10_000_000;

/// The premium loyalty bonus as shown: at most 999.
pub fn cap_premium_bonus(value: u16) -> (r: u16)
    ensures
        r == (if value > PREMIUM_BONUS_CAP { PREMIUM_BONUS_CAP } else { value }),
{
    if value > PREMIUM_BONUS_CAP {
        PREMIUM_BONUS_CAP
    } else {
        value
    }
}

/// Base EXP of an event score: `level^3 * 0.15 * score`, rounded down.
pub open spec fn spec_event_exp(level: u8, score: nat) -> nat {
    (level * level * level * 15 * score / 100) as nat
}

/// The premium preview: twice the EXP, capped at ten million.
pub open spec fn spec_premium_exp(exp: nat) -> nat {
    if 2 * exp > PREMIUM_EXP_CAP {
        PREMIUM_EXP_CAP as nat
    } else {
        2 * exp
    }
}

/// `level^3 * 15 * score / 100`, computed without overflow.
fn event_exp(level: u8, score: u64) -> (exp: u64)
    requires
        score <= 5 * (u32::MAX as u64),
    ensures
        exp == spec_event_exp(level, score as nat),
        exp <= 6_000_000_000_000_000_000u64,
{
    let l = level as u64;
    assert(l * l <= 65025) by (nonlinear_arith)
        requires
            l <= 255,
    ;
    let sq = l * l;
    assert(sq * l <= 16581375) by (nonlinear_arith)
        requires
            sq <= 65025,
            l <= 255,
    ;
    let cube = sq * l;
    assert(cube * 15 * score <= 16581375 * 15 * (5 * 4294967295u64)) by (nonlinear_arith)
        requires
            cube <= 16581375,
            score <= 5 * 4294967295u64,
    ;
    let total = cube * 15 * score;
    assert(total / 100 <= total);
    total / 100
}

/// The premium preview of an EXP value.
fn premium_exp(exp: u64) -> (p: u64)
    requires
        exp <= u64::MAX / 2,
    ensures
        p == spec_premium_exp(exp as nat),
{
    if 2 * exp > PREMIUM_EXP_CAP {
        PREMIUM_EXP_CAP
    } else {
        2 * exp
    }
}

/// EXP preview of a Border Defence War score: the score counts five times,
/// `level^3 * 0.15 * (5 * points)`, and the premium preview is twice that,
/// capped at ten million.
pub fn bdw_user_point_exp(level: u8, points: u32) -> (r: (i64, i64))
    ensures
        r.0 == spec_event_exp(level, 5 * points as nat),
        r.1 == spec_premium_exp(spec_event_exp(level, 5 * points as nat)),
{
    let exp = event_exp(level, 5 * points as u64);
    let prem = premium_exp(exp);
    (exp as i64, prem as i64)
}

/// The Chaos Dungeon kill score: five per kill, minus one per death.
pub open spec fn spec_chaos_score(kills: u32, deaths: u32) -> int {
    5 * kills - deaths
}

/// EXP preview of a Chaos Dungeon run: `level^3 * 0.15 * (5 * kills - deaths)`
/// when that score is positive, nothing otherwise; the premium preview is twice
/// the EXP, capped at ten million.
pub fn chaos_user_exp(level: u8, kills: u32, deaths: u32) -> (r: (i64, i64))
    ensures
        spec_chaos_score(kills, deaths) <= 0 ==> r == (0i64, 0i64),
        spec_chaos_score(kills, deaths) > 0 ==> r.0 == spec_event_exp(
            level,
            spec_chaos_score(kills, deaths) as nat,
        ) && r.1 == spec_premium_exp(spec_event_exp(level, spec_chaos_score(kills, deaths) as nat)),
{
    let five_kills = 5 * kills as u64;
    if five_kills <= deaths as u64 {
        return (0, 0);
    }
    let score = five_kills - deaths as u64;
    let exp = event_exp(level, score);
    let prem = premium_exp(exp);
    (exp as i64, prem as i64)
}

/// A higher level never lowers the event EXP of a score.
pub proof fn lemma_event_exp_monotonic_in_level(l1: u8, l2: u8, score: nat)
    requires
        l1 <= l2,
    ensures
        spec_event_exp(l1, score) <= spec_event_exp(l2, score),
{
    assert(l1 * l1 * l1 <= l2 * l2 * l2) by (nonlinear_arith)
        requires
            0 <= l1 <= l2,
    ;
    assert(l1 * l1 * l1 * 15 * score <= l2 * l2 * l2 * 15 * score) by (nonlinear_arith)
        requires
            l1 * l1 * l1 <= l2 * l2 * l2,
            score >= 0,
    ;
    vstd::arithmetic::div_mod::lemma_div_is_ordered(
        l1 * l1 * l1 * 15 * score,
        l2 * l2 * l2 * 15 * score,
        100,
    );
}

/// Ranking key order: `a` ranks before `b` when its primary value is higher,
/// or equal with a lower secondary value, or both equal with a lower index.
pub open spec fn ranks_before(primary: Seq<u32>, secondary: Seq<u32>, a: int, b: int) -> bool {
    primary[a] > primary[b] || (primary[a] == primary[b] && (secondary[a] < secondary[b] || (
    secondary[a] == secondary[b] && a < b)))
}

/// The ranking order of `n` entries: every index once, in strictly increasing
/// key order.
pub open spec fn is_ranking_order(order: Seq<usize>, primary: Seq<u32>, secondary: Seq<u32>) -> bool {
    &&& order.len() == primary.len()
    &&& forall|k: int| 0 <= k < order.len() ==> #[trigger] order[k] < primary.len()
    &&& forall|k1: int, k2: int|
        0 <= k1 < k2 < order.len() ==> ranks_before(
            primary,
            secondary,
            #[trigger] order[k1] as int,
            #[trigger] order[k2] as int,
        )
}

/// Whether entry `a` ranks before entry `b`.
fn ranks_before_exec(primary: &[u32], secondary: &[u32], a: usize, b: usize) -> (r: bool)
    requires
        a < primary@.len(),
        b < primary@.len(),
        primary@.len() == secondary@.len(),
    ensures
        r == ranks_before(primary@, secondary@, a as int, b as int),
{
    primary[a] > primary[b] || (primary[a] == primary[b] && (secondary[a] < secondary[b] || (
    secondary[a] == secondary[b] && a < b)))
}

/// Indices of the entries ordered by `primary` descending, then `secondary`
/// ascending, then position: a stable sort.
pub fn ranking_order(primary: &[u32], secondary: &[u32]) -> (order: Vec<usize>)
    requires
        primary@.len() == secondary@.len(),
    ensures
        is_ranking_order(order@, primary@, secondary@),
{
    let n = primary.len();
    let mut order: Vec<usize> = Vec::new();
    let mut i: usize = 0;
    while i < n
        invariant
            n == primary@.len(),
            primary@.len() == secondary@.len(),
            i <= n,
            order@.len() == i,
            forall|k: int| 0 <= k < order@.len() ==> #[trigger] order@[k] < i,
            forall|k1: int, k2: int|
                0 <= k1 < k2 < order@.len() ==> ranks_before(
                    primary@,
                    secondary@,
                    #[trigger] order@[k1] as int,
                    #[trigger] order@[k2] as int,
                ),
        decreases n - i,
    {
        // find the first position whose entry ranks after `i`
        let mut pos: usize = 0;
        while pos < order.len() && ranks_before_exec(primary, secondary, order[pos], i)
            invariant
                n == primary@.len(),
                primary@.len() == secondary@.len(),
                i < n,
                pos <= order@.len(),
                forall|k: int| 0 <= k < order@.len() ==> #[trigger] order@[k] < i,
                forall|k: int| 0 <= k < pos ==> ranks_before(primary@, secondary@, #[trigger] order@[k] as int, i as int),
            decreases order@.len() - pos,
        {
            pos = pos + 1;
        }
        let ghost before = order@;
        proof {
            if pos < before.len() {
                let o = before[pos as int];
                assert(ranks_before(primary@, secondary@, i as int, o as int));
                assert forall|k: int| pos <= k < before.len() implies ranks_before(
                    primary@,
                    secondary@,
                    i as int,
                    #[trigger] before[k] as int,
                ) by {
                    if k > pos {
                        assert(ranks_before(primary@, secondary@, o as int, before[k] as int));
                    }
                }
            }
        }
        order.insert(pos, i);
        proof {
            assert forall|k1: int, k2: int|
                0 <= k1 < k2 < order@.len() implies ranks_before(
                primary@,
                secondary@,
                #[trigger] order@[k1] as int,
                #[trigger] order@[k2] as int,
            ) by {
                if k2 < pos {
                    assert(order@[k1] == before[k1] && order@[k2] == before[k2]);
                } else if k2 == pos {
                    assert(order@[k1] == before[k1]);
                } else if k1 < pos {
                    assert(order@[k1] == before[k1] && order@[k2] == before[k2 - 1]);
                    assert(ranks_before(primary@, secondary@, before[k1] as int, i as int));
                    assert(ranks_before(primary@, secondary@, i as int, before[k2 - 1] as int));
                } else if k1 == pos {
                    assert(order@[k2] == before[k2 - 1]);
                } else {
                    assert(order@[k1] == before[k1 - 1] && order@[k2] == before[k2 - 1]);
                }
            }
        }
        i = i + 1;
    }
    order
}

/// Border Defence War order: points descending, ties in entry order.
pub fn bdw_ranking_order(points: &[u32]) -> (order: Vec<usize>)
    ensures
        is_ranking_order(order@, points@, Seq::new(points@.len(), |i: int| 0u32)),
{
    let mut zeros: Vec<u32> = Vec::new();
    let mut i: usize = 0;
    while i < points.len()
        invariant
            i <= points@.len(),
            zeros@ == Seq::new(i as nat, |j: int| 0u32),
        decreases points@.len() - i,
    {
        zeros.push(0);
        i = i + 1;
    }
    ranking_order(points, zeros.as_slice())
}

/// Chaos Dungeon order: kills descending, then deaths ascending, ties in entry order.
pub fn chaos_ranking_order(kills: &[u32], deaths: &[u32]) -> (order: Vec<usize>)
    requires
        kills@.len() == deaths@.len(),
    ensures
        is_ranking_order(order@, kills@, deaths@),
{
    ranking_order(kills, deaths)
}

/// A ranking order lists each entry exactly once.
pub proof fn lemma_ranking_order_has_no_duplicates(
    order: Seq<usize>,
    primary: Seq<u32>,
    secondary: Seq<u32>,
)
    requires
        is_ranking_order(order, primary, secondary),
    ensures
        order.no_duplicates(),
{
    assert forall|i: int, j: int| 0 <= i < order.len() && 0 <= j < order.len() && i != j implies order[i]
        != order[j] by {
        if i < j {
            assert(ranks_before(primary, secondary, order[i] as int, order[j] as int));
        } else {
            assert(ranks_before(primary, secondary, order[j] as int, order[i] as int));
        }
    }
}

/// The answer to a Border Defence War ranking request when the event is not
/// running or the player is in no room: `[u8 2][u16 0][u16 0][i64 0][i64 0]`.
pub fn build_bdw_empty_packet() -> (pkt: Packet)
    ensures
        pkt.opcode == WIZ_RANK,
        pkt.data@ == u8_le(RANK_TYPE_ZONE_BORDER_DEFENSE_WAR) + u16_le(0) + u16_le(0) + u64_le(0)
            + u64_le(0),
{
    let mut pkt = Packet::new(WIZ_RANK);
    pkt.write_u8(RANK_TYPE_ZONE_BORDER_DEFENSE_WAR);
    pkt.write_u16(0);
    pkt.write_u16(0);
    pkt.write_u64(0);
    pkt.write_u64(0);
    pkt
}

/// The answer to a Chaos Dungeon ranking request when the event is not
/// running or the player is in no room: `[u8 3][u8 0][i32 0][i32 0][u32 1]`.
pub fn build_chaos_empty_packet() -> (pkt: Packet)
    ensures
        pkt.opcode == WIZ_RANK,
        pkt.data@ == u8_le(RANK_TYPE_CHAOS_DUNGEON) + u8_le(0) + u32_le(0) + u32_le(0) + u32_le(1),
{
    let mut pkt = Packet::new(WIZ_RANK);
    pkt.write_u8(RANK_TYPE_CHAOS_DUNGEON);
    pkt.write_u8(0);
    pkt.write_i32(0);
    pkt.write_i32(0);
    pkt.write_u32(1);
    pkt
}

/// Symbol rank of a ranking bot: the better (lower) of its personal and clan
/// ranks, ignoring zeros; -1 when both are zero.
pub fn bot_symbol_rank(personal_rank: u8, knights_rank: u8) -> (r: i8)
    ensures
        personal_rank == 0 && knights_rank == 0 ==> r == -1,
        personal_rank != 0 && knights_rank == 0 ==> r == personal_rank as i8,
        personal_rank == 0 && knights_rank != 0 ==> r == knights_rank as i8,
        personal_rank != 0 && knights_rank != 0 ==> r == (if personal_rank <= knights_rank {
            personal_rank
        } else {
            knights_rank
        }) as i8,
{
    if personal_rank == 0 && knights_rank == 0 {
        -1
    } else if knights_rank == 0 {
        personal_rank as i8
    } else if personal_rank == 0 {
        knights_rank as i8
    } else if personal_rank <= knights_rank {
        personal_rank as i8
    } else {
        knights_rank as i8
    }
}

/// The rank reported to a player beyond tenth place: when the nation has more
/// than nine entries and the rank multiplier is set, the nation total times
/// the multiplier (saturating); otherwise the counted rank.
pub open spec fn spec_reported_pk_rank(my_rank: u16, nation_total: u16, cz_rank: u16) -> u16 {
    if my_rank > 10 && nation_total > 9 && cz_rank > 0 {
        if nation_total * cz_rank > u16::MAX {
            u16::MAX
        } else {
            (nation_total * cz_rank) as u16
        }
    } else {
        my_rank
    }
}

pub fn reported_pk_rank(my_rank: u16, nation_total: u16, cz_rank: u16) -> (r: u16)
    ensures
        r == spec_reported_pk_rank(my_rank, nation_total, cz_rank),
{
    if my_rank > 10 && nation_total > 9 && cz_rank > 0 {
        assert(nation_total as u32 * cz_rank as u32 <= 65535 * 65535) by (nonlinear_arith)
            requires
                nation_total <= 65535,
                cz_rank <= 65535,
        ;
        let prod = nation_total as u32 * cz_rank as u32;
        if prod > u16::MAX as u32 {
            u16::MAX
        } else {
            prod as u16
        }
    } else {
        my_rank
    }
}


/// Byte order of names, looking from position `i` on: the first differing
/// byte decides, and a name that ends first comes first.
pub open spec fn bytes_lt_from(a: Seq<u8>, b: Seq<u8>, i: int) -> bool
    decreases a.len() - i,
{
    if i >= a.len() {
        i < b.len()
    } else if i >= b.len() {
        false
    } else if a[i] < b[i] {
        true
    } else if a[i] > b[i] {
        false
    } else {
        bytes_lt_from(a, b, i + 1)
    }
}

/// `a` comes strictly before `b` in byte order, as strings are ordered.
pub open spec fn bytes_lt(a: Seq<u8>, b: Seq<u8>) -> bool {
    bytes_lt_from(a, b, 0)
}

proof fn lemma_bytes_lt_from_irreflexive(a: Seq<u8>, i: int)
    requires
        0 <= i,
    ensures
        !bytes_lt_from(a, a, i),
    decreases a.len() - i,
{
    if i < a.len() {
        lemma_bytes_lt_from_irreflexive(a, i + 1);
    }
}

proof fn lemma_bytes_lt_from_transitive(a: Seq<u8>, b: Seq<u8>, c: Seq<u8>, i: int)
    requires
        0 <= i,
        bytes_lt_from(a, b, i),
        bytes_lt_from(b, c, i),
    ensures
        bytes_lt_from(a, c, i),
    decreases a.len() - i,
{
    if i < a.len() && i < b.len() && i < c.len() && a[i] == b[i] && b[i] == c[i] {
        lemma_bytes_lt_from_transitive(a, b, c, i + 1);
    }
}

proof fn lemma_bytes_lt_from_total(a: Seq<u8>, b: Seq<u8>, i: int)
    requires
        0 <= i <= a.len(),
        i <= b.len(),
        a != b,
        forall|j: int| 0 <= j < i ==> a[j] == b[j],
    ensures
        bytes_lt_from(a, b, i) || bytes_lt_from(b, a, i),
    decreases a.len() - i,
{
    if i == a.len() && i == b.len() {
        assert(a =~= b);
    } else if i < a.len() && i < b.len() && a[i] == b[i] {
        lemma_bytes_lt_from_total(a, b, i + 1);
    }
}

/// Byte order is a strict total order.
pub proof fn lemma_bytes_lt_strict_total(a: Seq<u8>, b: Seq<u8>, c: Seq<u8>)
    ensures
        !bytes_lt(a, a),
        bytes_lt(a, b) && bytes_lt(b, c) ==> bytes_lt(a, c),
        a != b ==> bytes_lt(a, b) || bytes_lt(b, a),
{
    lemma_bytes_lt_from_irreflexive(a, 0);
    if bytes_lt(a, b) && bytes_lt(b, c) {
        lemma_bytes_lt_from_transitive(a, b, c, 0);
    }
    if a != b {
        lemma_bytes_lt_from_total(a, b, 0);
    }
}

/// Compares two names byte by byte.
fn bytes_lt_exec(a: &[u8], b: &[u8]) -> (r: bool)
    ensures
        r == bytes_lt(a@, b@),
{
    let mut i: usize = 0;
    while i < a.len() && i < b.len() && a[i] == b[i]
        invariant
            i <= a@.len(),
            i <= b@.len(),
            bytes_lt(a@, b@) == bytes_lt_from(a@, b@, i as int),
        decreases a@.len() - i,
    {
        i = i + 1;
    }
    if i >= a.len() {
        i < b.len()
    } else if i >= b.len() {
        false
    } else {
        a[i] < b[i]
    }
}

/// A clan as the PK ranking shows it.
pub struct PkClan {
    pub id: u16,
    pub mark_version: u16,
    pub name: String,
}

/// One line of the PK zone ranking, as gathered from a player or a bot.
pub struct PkRankEntry {
    /// Whether this line is the player who asked.
    pub is_requester: bool,
    pub name: String,
    pub nation: u8,
    pub knights_id: u16,
    /// The clan under `knights_id`, where the world knows it.
    pub clan: Option<PkClan>,
    pub loyalty: u32,
    pub premium_bonus: u16,
    pub symbol_rank: i8,
}

/// The bytes of an entry's name.
pub open spec fn pk_name(e: PkRankEntry) -> Seq<u8> {
    vstd::utf8::encode_utf8(e.name@)
}

/// PK ranking order: higher daily loyalty first, then names in byte order,
/// then the order in which the entries came.
pub open spec fn pk_before(es: Seq<PkRankEntry>, a: int, b: int) -> bool {
    es[a].loyalty > es[b].loyalty || (es[a].loyalty == es[b].loyalty && (bytes_lt(pk_name(es[a]), pk_name(es[b]))
        || (pk_name(es[a]) == pk_name(es[b]) && a < b)))
}

/// The PK ranking order of the entries: every index once, in strictly
/// increasing order.
pub open spec fn is_pk_order(order: Seq<usize>, es: Seq<PkRankEntry>) -> bool {
    &&& order.len() == es.len()
    &&& forall|k: int| 0 <= k < order.len() ==> #[trigger] order[k] < es.len()
    &&& forall|k1: int, k2: int|
        0 <= k1 < k2 < order.len() ==> pk_before(es, #[trigger] order[k1] as int, #[trigger] order[k2] as int)
}

/// The PK ranking order is a strict total order on the entries.
pub proof fn lemma_pk_before_strict_total(es: Seq<PkRankEntry>, a: int, b: int, c: int)
    ensures
        !pk_before(es, a, a),
        pk_before(es, a, b) && pk_before(es, b, c) ==> pk_before(es, a, c),
        a != b ==> pk_before(es, a, b) || pk_before(es, b, a),
{
    lemma_bytes_lt_strict_total(pk_name(es[a]), pk_name(es[b]), pk_name(es[c]));
    lemma_bytes_lt_strict_total(pk_name(es[b]), pk_name(es[a]), pk_name(es[c]));
    lemma_bytes_lt_strict_total(pk_name(es[a]), pk_name(es[c]), pk_name(es[b]));
}

fn pk_before_exec(es: &[PkRankEntry], a: usize, b: usize) -> (r: bool)
    requires
        a < es@.len(),
        b < es@.len(),
    ensures
        r == pk_before(es@, a as int, b as int),
{
    let la = es[a].loyalty;
    let lb = es[b].loyalty;
    if la != lb {
        return la > lb;
    }
    let na = es[a].name.as_str().as_bytes();
    let nb = es[b].name.as_str().as_bytes();
    proof {
        lemma_bytes_lt_strict_total(na@, nb@, na@);
    }
    if bytes_lt_exec(na, nb) {
        true
    } else if bytes_lt_exec(nb, na) {
        false
    } else {
        a < b
    }
}

/// Indices of the entries in PK ranking order: a stable sort by daily
/// loyalty, highest first, then by name.
pub fn pk_ranking_order(es: &[PkRankEntry]) -> (order: Vec<usize>)
    ensures
        is_pk_order(order@, es@),
{
    let n = es.len();
    let mut order: Vec<usize> = Vec::new();
    let mut i: usize = 0;
    while i < n
        invariant
            n == es@.len(),
            i <= n,
            order@.len() == i,
            forall|k: int| 0 <= k < order@.len() ==> #[trigger] order@[k] < i,
            forall|k1: int, k2: int|
                0 <= k1 < k2 < order@.len() ==> pk_before(es@, #[trigger] order@[k1] as int, #[trigger] order@[k2] as int),
        decreases n - i,
    {
        let mut pos: usize = 0;
        while pos < order.len() && pk_before_exec(es, order[pos], i)
            invariant
                n == es@.len(),
                i < n,
                pos <= order@.len(),
                forall|k: int| 0 <= k < order@.len() ==> #[trigger] order@[k] < i,
                forall|k: int| 0 <= k < pos ==> pk_before(es@, #[trigger] order@[k] as int, i as int),
            decreases order@.len() - pos,
        {
            pos = pos + 1;
        }
        let ghost before = order@;
        proof {
            if pos < before.len() {
                let o = before[pos as int];
                lemma_pk_before_strict_total(es@, i as int, o as int, i as int);
                assert(pk_before(es@, i as int, o as int));
                assert forall|k: int| pos <= k < before.len() implies pk_before(
                    es@,
                    i as int,
                    #[trigger] before[k] as int,
                ) by {
                    if k > pos {
                        assert(pk_before(es@, o as int, before[k] as int));
                        lemma_pk_before_strict_total(es@, i as int, o as int, before[k] as int);
                    }
                }
            }
        }
        order.insert(pos, i);
        proof {
            assert forall|k1: int, k2: int|
                0 <= k1 < k2 < order@.len() implies pk_before(
                es@,
                #[trigger] order@[k1] as int,
                #[trigger] order@[k2] as int,
            ) by {
                if k2 < pos {
                    assert(order@[k1] == before[k1] && order@[k2] == before[k2]);
                } else if k2 == pos {
                    assert(order@[k1] == before[k1]);
                } else if k1 < pos {
                    assert(order@[k1] == before[k1] && order@[k2] == before[k2 - 1]);
                } else if k1 == pos {
                    assert(order@[k2] == before[k2 - 1]);
                } else {
                    assert(order@[k1] == before[k1 - 1] && order@[k2] == before[k2 - 1]);
                }
            }
        }
        i = i + 1;
    }
    order
}

/// The clan part of a ranking line: zeros and an empty name where there is
/// no clan (ID 0 or 0xFFFF) or the world does not know it.
pub open spec fn clan_shown_bytes(knights_id: u16, clan: Option<PkClan>) -> Seq<u8> {
    if knights_id == 0 || knights_id == 0xFFFF || clan is None {
        u16_le(0) + u16_le(0) + dbyte_string(Seq::empty())
    } else {
        u16_le(clan->0.id) + u16_le(clan->0.mark_version) + dbyte_string(vstd::utf8::encode_utf8(clan->0.name@))
    }
}

/// One PK ranking line: name, nation shown, clan, daily loyalty, premium
/// bonus (at most 999) and symbol rank.
pub open spec fn pk_line_bytes(e: PkRankEntry, shown_nation: u8) -> Seq<u8> {
    dbyte_string(pk_name(e)) + u8_le(shown_nation) + clan_shown_bytes(e.knights_id, e.clan) + u32_le(e.loyalty)
        + u16_le(if e.premium_bonus > PREMIUM_BONUS_CAP { PREMIUM_BONUS_CAP } else { e.premium_bonus }) + u8_le(
        e.symbol_rank as u8,
    )
}

/// The nation shown on a line: the asker's where the caller asks for it,
/// else the entry's own.
pub open spec fn pk_shown_nation(e: PkRankEntry, nation: u8, use_requester_nation: bool) -> u8 {
    if use_requester_nation {
        nation
    } else {
        e.nation
    }
}

/// The first `n` lines in the given order.
pub open spec fn pk_lines_bytes(
    es: Seq<PkRankEntry>,
    order: Seq<usize>,
    n: int,
    nation: u8,
    use_requester_nation: bool,
) -> Seq<u8>
    decreases n,
{
    if n <= 0 {
        Seq::empty()
    } else {
        let e = es[order[n - 1] as int];
        pk_lines_bytes(es, order, n - 1, nation, use_requester_nation) + pk_line_bytes(
            e,
            pk_shown_nation(e, nation, use_requester_nation),
        )
    }
}

/// PK ranking lines shown per nation.
pub const PK_MAX_ENTRIES: usize = 10;

/// A nation's part of the PK ranking: the number of lines shown, at most
/// ten, and those lines.
pub open spec fn pk_section_bytes(es: Seq<PkRankEntry>, order: Seq<usize>, nation: u8, use_requester_nation: bool) -> Seq<u8> {
    let shown = if es.len() > 10 { 10 } else { es.len() as int };
    u16_le(shown as u16) + pk_lines_bytes(es, order, shown, nation, use_requester_nation)
}

/// The asker's place counted from position `i` of the order: 1 for the
/// first line that is the asker; the number of lines when none is.
pub open spec fn pk_rank_from(es: Seq<PkRankEntry>, order: Seq<usize>, i: int) -> int
    decreases order.len() - i,
{
    if i < 0 || i >= order.len() {
        0
    } else if es[order[i] as int].is_requester {
        1
    } else {
        1 + pk_rank_from(es, order, i + 1)
    }
}

proof fn lemma_pk_rank_from_bounded(es: Seq<PkRankEntry>, order: Seq<usize>, i: int)
    requires
        0 <= i <= order.len(),
    ensures
        0 <= pk_rank_from(es, order, i) <= order.len() - i,
    decreases order.len() - i,
{
    if i < order.len() {
        lemma_pk_rank_from_bounded(es, order, i + 1);
    }
}

/// The asker's counted place among the sorted entries of the asker's
/// nation: its place, or the number of entries when it is not among them.
pub fn pk_requester_rank(es: &[PkRankEntry], order: &Vec<usize>) -> (r: u16)
    requires
        is_pk_order(order@, es@),
        es@.len() <= u16::MAX,
    ensures
        r == pk_rank_from(es@, order@, 0),
{
    let n = order.len();
    let mut i: usize = 0;
    while i < n
        invariant
            n == order@.len(),
            is_pk_order(order@, es@),
            es@.len() <= u16::MAX,
            i <= n,
            forall|j: int| 0 <= j < i ==> !(#[trigger] es@[order@[j] as int]).is_requester,
            pk_rank_from(es@, order@, 0) == i + pk_rank_from(es@, order@, i as int),
        decreases n - i,
    {
        if es[order[i]].is_requester {
            return (i + 1) as u16;
        }
        i = i + 1;
    }
    n as u16
}

/// Appends one ranking line.
fn write_pk_line(pkt: &mut Packet, e: &PkRankEntry, shown_nation: u8)
    ensures
        final(pkt).opcode == old(pkt).opcode,
        final(pkt).data@ == old(pkt).data@ + pk_line_bytes(*e, shown_nation),
{
    pkt.write_string(e.name.as_str());
    pkt.write_u8(shown_nation);
    match &e.clan {
        Some(c) if e.knights_id != 0 && e.knights_id != 0xFFFF => {
            pkt.write_u16(c.id);
            pkt.write_u16(c.mark_version);
            pkt.write_string(c.name.as_str());
        },
        _ => {
            pkt.write_u16(0);
            pkt.write_u16(0);
            pkt.write_string("");
            proof {
                reveal_strlit("");
            }
        },
    }
    pkt.write_u32(e.loyalty);
    pkt.write_u16(cap_premium_bonus(e.premium_bonus));
    pkt.write_i8(e.symbol_rank);
    assert(pkt.data@ =~= old(pkt).data@ + pk_line_bytes(*e, shown_nation));
}

/// Appends a nation's part of the PK ranking.
fn write_pk_section(pkt: &mut Packet, es: &[PkRankEntry], order: &Vec<usize>, nation: u8, use_requester_nation: bool)
    requires
        is_pk_order(order@, es@),
    ensures
        final(pkt).opcode == old(pkt).opcode,
        final(pkt).data@ == old(pkt).data@ + pk_section_bytes(es@, order@, nation, use_requester_nation),
{
    let shown: usize = if es.len() > PK_MAX_ENTRIES { PK_MAX_ENTRIES } else { es.len() };
    pkt.write_u16(shown as u16);
    let ghost start = pkt.data@;
    let mut k: usize = 0;
    while k < shown
        invariant
            is_pk_order(order@, es@),
            shown <= order@.len(),
            shown == (if es@.len() > 10 { 10 } else { es@.len() as int }),
            k <= shown,
            pkt.opcode == old(pkt).opcode,
            start == old(pkt).data@ + u16_le(shown as u16),
            pkt.data@ == start + pk_lines_bytes(es@, order@, k as int, nation, use_requester_nation),
        decreases shown - k,
    {
        let e = &es[order[k]];
        let shown_nation = if use_requester_nation { nation } else { e.nation };
        write_pk_line(pkt, e, shown_nation);
        assert(pkt.data@ =~= start + pk_lines_bytes(es@, order@, (k + 1) as int, nation, use_requester_nation));
        k = k + 1;
    }
    assert(pkt.data@ =~= old(pkt).data@ + pk_section_bytes(es@, order@, nation, use_requester_nation));
}

/// The asker's rank before it is reported: the place in the asker's own
/// nation, 0 for an asker of neither nation.
pub open spec fn pk_counted_rank(nation: u8, karus: Seq<PkRankEntry>, o0: Seq<usize>, elmorad: Seq<PkRankEntry>, o1: Seq<usize>) -> u16 {
    if nation == 1 {
        pk_rank_from(karus, o0, 0) as u16
    } else if nation == 2 {
        pk_rank_from(elmorad, o1, 0) as u16
    } else {
        0
    }
}

/// The size of the asker's nation's list, 0 for neither nation.
pub open spec fn pk_nation_total(nation: u8, karus: Seq<PkRankEntry>, elmorad: Seq<PkRankEntry>) -> u16 {
    if nation == 1 {
        karus.len() as u16
    } else if nation == 2 {
        elmorad.len() as u16
    } else {
        0
    }
}

/// The whole PK zone ranking answer for the given sort orders.
pub open spec fn pk_ranking_bytes(
    nation: u8,
    my_loyalty_daily: u32,
    my_loyalty_premium: u16,
    karus: Seq<PkRankEntry>,
    o0: Seq<usize>,
    elmorad: Seq<PkRankEntry>,
    o1: Seq<usize>,
    use_requester_nation: bool,
    cz_rank: u16,
) -> Seq<u8> {
    u8_le(RANK_TYPE_PK_ZONE) + pk_section_bytes(karus, o0, nation, use_requester_nation) + pk_section_bytes(
        elmorad,
        o1,
        nation,
        use_requester_nation,
    ) + u16_le(
        spec_reported_pk_rank(
            pk_counted_rank(nation, karus, o0, elmorad, o1),
            pk_nation_total(nation, karus, elmorad),
            cz_rank,
        ),
    ) + u32_le(my_loyalty_daily) + u16_le(my_loyalty_premium)
}

/// The PK zone ranking: each nation's entries (Karus, then El Morad) sorted
/// by daily loyalty, highest first, then by name, with at most ten lines
/// each; then the asker's rank, counted in the asker's nation and reported
/// as `reported_pk_rank` says, and the asker's daily loyalty and premium
/// bonus.
pub fn build_pk_ranking_packet(
    nation: u8,
    my_loyalty_daily: u32,
    my_loyalty_premium: u16,
    karus: &[PkRankEntry],
    elmorad: &[PkRankEntry],
    use_requester_nation: bool,
    cz_rank: u16,
) -> (pkt: Packet)
    requires
        karus@.len() <= u16::MAX,
        elmorad@.len() <= u16::MAX,
    ensures
        pkt.opcode == WIZ_RANK,
        exists|o0: Seq<usize>, o1: Seq<usize>|
            #![trigger is_pk_order(o0, karus@), is_pk_order(o1, elmorad@)]
            is_pk_order(o0, karus@) && is_pk_order(o1, elmorad@) && pkt.data@ == pk_ranking_bytes(
                nation,
                my_loyalty_daily,
                my_loyalty_premium,
                karus@,
                o0,
                elmorad@,
                o1,
                use_requester_nation,
                cz_rank,
            ),
{
    let o0 = pk_ranking_order(karus);
    let o1 = pk_ranking_order(elmorad);
    let mut pkt = Packet::new(WIZ_RANK);
    pkt.write_u8(RANK_TYPE_PK_ZONE);
    write_pk_section(&mut pkt, karus, &o0, nation, use_requester_nation);
    write_pk_section(&mut pkt, elmorad, &o1, nation, use_requester_nation);
    proof {
        lemma_pk_rank_from_bounded(karus@, o0@, 0);
        lemma_pk_rank_from_bounded(elmorad@, o1@, 0);
    }
    let (counted, total): (u16, u16) = if nation == 1 {
        (pk_requester_rank(karus, &o0), karus.len() as u16)
    } else if nation == 2 {
        (pk_requester_rank(elmorad, &o1), elmorad.len() as u16)
    } else {
        (0, 0)
    };
    pkt.write_u16(reported_pk_rank(counted, total, cz_rank));
    pkt.write_u32(my_loyalty_daily);
    pkt.write_u16(my_loyalty_premium);
    assert(pkt.data@ =~= pk_ranking_bytes(
        nation,
        my_loyalty_daily,
        my_loyalty_premium,
        karus@,
        o0@,
        elmorad@,
        o1@,
        use_requester_nation,
        cz_rank,
    ));
    pkt
}

/// A user of an event room, as the room lists it, with what the world
/// says of the user's session.
pub struct EventRoomUser {
    pub name: String,
    pub logged_out: bool,
    pub bdw_points: u32,
    pub kills: u32,
    pub deaths: u32,
    /// The clan ID of the user's character while the user is in the game;
    /// `None` once the user is not.
    pub knights_id: Option<u16>,
    /// The clan under that ID, where the world knows it.
    pub clan: Option<PkClan>,
}

/// A user the ranking lists: named and not logged out.
pub open spec fn room_user_listed(u: EventRoomUser) -> bool {
    u.name@.len() > 0 && !u.logged_out
}

/// Positions, among the first `n` users, of the users the ranking lists.
pub open spec fn listed_indices(users: Seq<EventRoomUser>, n: int) -> Seq<usize>
    decreases n,
{
    if n <= 0 {
        Seq::empty()
    } else if room_user_listed(users[n - 1]) {
        listed_indices(users, n - 1).push((n - 1) as usize)
    } else {
        listed_indices(users, n - 1)
    }
}

proof fn lemma_listed_indices_bounded(users: Seq<EventRoomUser>, n: int)
    requires
        0 <= n <= users.len(),
    ensures
        listed_indices(users, n).len() <= n,
        forall|j: int| 0 <= j < listed_indices(users, n).len() ==> #[trigger] listed_indices(users, n)[j] < n,
    decreases n,
{
    if n > 0 {
        lemma_listed_indices_bounded(users, n - 1);
    }
}

/// The positions of the users the ranking lists.
fn list_room_users(users: &[EventRoomUser]) -> (r: Vec<usize>)
    ensures
        r@ == listed_indices(users@, users@.len() as int),
        r@.len() <= users@.len(),
        forall|j: int| 0 <= j < r@.len() ==> #[trigger] r@[j] < users@.len(),
{
    let mut out: Vec<usize> = Vec::new();
    let mut i: usize = 0;
    while i < users.len()
        invariant
            i <= users@.len(),
            out@ == listed_indices(users@, i as int),
        decreases users@.len() - i,
    {
        if !users[i].name.as_str().is_empty() && !users[i].logged_out {
            out.push(i);
        }
        i = i + 1;
    }
    proof {
        lemma_listed_indices_bounded(users@, users@.len() as int);
    }
    out
}

/// The values `f` gives for the users at the given positions.
pub open spec fn bdw_points_of(users: Seq<EventRoomUser>, idx: Seq<usize>) -> Seq<u32> {
    idx.map_values(|i: usize| users[i as int].bdw_points)
}

pub open spec fn kills_of(users: Seq<EventRoomUser>, idx: Seq<usize>) -> Seq<u32> {
    idx.map_values(|i: usize| users[i as int].kills)
}

pub open spec fn deaths_of(users: Seq<EventRoomUser>, idx: Seq<usize>) -> Seq<u32> {
    idx.map_values(|i: usize| users[i as int].deaths)
}

/// Positions of the users still in the game among the first `k` in ranking
/// order (`order` ranks the listed users `idx`).
pub open spec fn present_in_order(users: Seq<EventRoomUser>, idx: Seq<usize>, order: Seq<usize>, k: int) -> Seq<usize>
    decreases k,
{
    if k <= 0 {
        Seq::empty()
    } else {
        let u = idx[order[k - 1] as int];
        if users[u as int].knights_id is Some {
            present_in_order(users, idx, order, k - 1).push(u)
        } else {
            present_in_order(users, idx, order, k - 1)
        }
    }
}

proof fn lemma_present_in_order_prefix(
    users: Seq<EventRoomUser>,
    idx: Seq<usize>,
    order: Seq<usize>,
    k: int,
    n: int,
)
    requires
        0 <= k <= n,
    ensures
        present_in_order(users, idx, order, k).len() <= present_in_order(users, idx, order, n).len(),
        present_in_order(users, idx, order, n).subrange(0, present_in_order(users, idx, order, k).len() as int)
            == present_in_order(users, idx, order, k),
    decreases n - k,
{
    if k < n {
        lemma_present_in_order_prefix(users, idx, order, k, n - 1);
        let a = present_in_order(users, idx, order, k);
        let b = present_in_order(users, idx, order, n - 1);
        let c = present_in_order(users, idx, order, n);
        assert(c.subrange(0, a.len() as int) =~= b.subrange(0, a.len() as int));
    } else {
        assert(present_in_order(users, idx, order, n).subrange(0, present_in_order(users, idx, order, n).len() as int)
            =~= present_in_order(users, idx, order, n));
    }
}

proof fn lemma_present_in_order_bounded(users: Seq<EventRoomUser>, idx: Seq<usize>, order: Seq<usize>, k: int)
    requires
        0 <= k <= order.len(),
        forall|j: int| 0 <= j < order.len() ==> #[trigger] order[j] < idx.len(),
        forall|j: int| 0 <= j < idx.len() ==> #[trigger] idx[j] < users.len(),
    ensures
        forall|j: int|
            0 <= j < present_in_order(users, idx, order, k).len() ==> #[trigger] present_in_order(
                users,
                idx,
                order,
                k,
            )[j] < users.len() && users[present_in_order(users, idx, order, k)[j] as int].knights_id is Some,
    decreases k,
{
    if k > 0 {
        lemma_present_in_order_bounded(users, idx, order, k - 1);
        assert(order[k - 1] < idx.len());
        assert(idx[order[k - 1] as int] < users.len());
    }
}

/// The first `cap` users still in the game, in ranking order.
fn shown_in_order(users: &[EventRoomUser], idx: &Vec<usize>, order: &Vec<usize>, cap: usize) -> (r: Vec<usize>)
    requires
        forall|j: int| 0 <= j < order@.len() ==> #[trigger] order@[j] < idx@.len(),
        forall|j: int| 0 <= j < idx@.len() ==> #[trigger] idx@[j] < users@.len(),
    ensures
        ({
            let all = present_in_order(users@, idx@, order@, order@.len() as int);
            r@ == all.take(if all.len() > cap { cap as int } else { all.len() as int })
        }),
        r@.len() <= cap,
        forall|j: int| 0 <= j < r@.len() ==> #[trigger] r@[j] < users@.len() && users@[r@[j] as int].knights_id is Some,
{
    let mut out: Vec<usize> = Vec::new();
    let mut k: usize = 0;
    while k < order.len() && out.len() < cap
        invariant
            forall|j: int| 0 <= j < order@.len() ==> #[trigger] order@[j] < idx@.len(),
            forall|j: int| 0 <= j < idx@.len() ==> #[trigger] idx@[j] < users@.len(),
            k <= order@.len(),
            out@ == present_in_order(users@, idx@, order@, k as int),
            out@.len() <= cap,
        decreases order@.len() - k,
    {
        let u = idx[order[k]];
        if users[u].knights_id.is_some() {
            out.push(u);
        }
        k = k + 1;
    }
    proof {
        let n = order@.len() as int;
        lemma_present_in_order_prefix(users@, idx@, order@, k as int, n);
        lemma_present_in_order_bounded(users@, idx@, order@, k as int);
        let all = present_in_order(users@, idx@, order@, n);
        if k as int == n {
            assert(all.take(all.len() as int) =~= all);
        } else {
            assert(all.take(cap as int) =~= out@);
        }
    }
    out
}

/// Border Defence War lines shown per nation.
pub const BDW_SHOWN: usize = 8;

/// One Border Defence War line: name, the asker's nation, clan, points.
pub open spec fn bdw_line_bytes(u: EventRoomUser, nation: u8) -> Seq<u8> {
    dbyte_string(vstd::utf8::encode_utf8(u.name@)) + u8_le(nation) + clan_shown_bytes(
        u.knights_id->0,
        u.clan,
    ) + u32_le(u.bdw_points)
}

/// The lines of the users at the given positions.
pub open spec fn bdw_lines_bytes(users: Seq<EventRoomUser>, shown: Seq<usize>, nation: u8) -> Seq<u8>
    decreases shown.len(),
{
    if shown.len() == 0 {
        Seq::empty()
    } else {
        bdw_lines_bytes(users, shown.drop_last(), nation) + bdw_line_bytes(users[shown.last() as int], nation)
    }
}

/// A nation's part of the Border Defence War ranking for a given order of
/// its listed users: the first eight still in the game.
pub open spec fn bdw_section_bytes(users: Seq<EventRoomUser>, order: Seq<usize>, nation: u8) -> Seq<u8> {
    let all = present_in_order(users, listed_indices(users, users.len() as int), order, order.len() as int);
    let shown = all.take(if all.len() > 8 { 8 } else { all.len() as int });
    u16_le(shown.len() as u16) + bdw_lines_bytes(users, shown, nation)
}

/// The Border Defence War points of the last user of the given name, or
/// `dflt` when none has it.
pub open spec fn last_points_of(users: Seq<EventRoomUser>, name: Seq<char>, dflt: u32) -> u32
    decreases users.len(),
{
    if users.len() == 0 {
        dflt
    } else if users.last().name@ == name {
        users.last().bdw_points
    } else {
        last_points_of(users.drop_last(), name, dflt)
    }
}

fn find_last_points(users: &[EventRoomUser], name: &String, dflt: u32) -> (r: u32)
    ensures
        r == last_points_of(users@, name@, dflt),
{
    let mut r = dflt;
    let mut i: usize = 0;
    while i < users.len()
        invariant
            i <= users@.len(),
            r == last_points_of(users@.subrange(0, i as int), name@, dflt),
        decreases users@.len() - i,
    {
        if users[i].name == *name {
            r = users[i].bdw_points;
        }
        assert(users@.subrange(0, (i + 1) as int).drop_last() =~= users@.subrange(0, i as int));
        i = i + 1;
    }
    assert(users@.subrange(0, users@.len() as int) =~= users@);
    r
}

fn write_bdw_lines(pkt: &mut Packet, users: &[EventRoomUser], shown: &Vec<usize>, nation: u8)
    requires
        forall|j: int|
            0 <= j < shown@.len() ==> #[trigger] shown@[j] < users@.len() && users@[shown@[j] as int].knights_id is Some,
    ensures
        final(pkt).opcode == old(pkt).opcode,
        final(pkt).data@ == old(pkt).data@ + bdw_lines_bytes(users@, shown@, nation),
{
    let mut k: usize = 0;
    while k < shown.len()
        invariant
            forall|j: int|
                0 <= j < shown@.len() ==> #[trigger] shown@[j] < users@.len() && users@[shown@[j] as int].knights_id is Some,
            k <= shown@.len(),
            pkt.opcode == old(pkt).opcode,
            pkt.data@ == old(pkt).data@ + bdw_lines_bytes(users@, shown@.take(k as int), nation),
        decreases shown@.len() - k,
    {
        let u = &users[shown[k]];
        let ghost before = pkt.data@;
        pkt.write_string(u.name.as_str());
        pkt.write_u8(nation);
        let kid: u16 = match u.knights_id {
            Some(v) => v,
            None => 0,
        };
        match &u.clan {
            Some(c) if kid != 0 && kid != 0xFFFF => {
                pkt.write_u16(c.id);
                pkt.write_u16(c.mark_version);
                pkt.write_string(c.name.as_str());
            },
            _ => {
                pkt.write_u16(0);
                pkt.write_u16(0);
                pkt.write_string("");
                proof {
                    reveal_strlit("");
                }
            },
        }
        pkt.write_u32(u.bdw_points);
        proof {
            assert(u.knights_id is Some);
            assert(pkt.data@ =~= before + bdw_line_bytes(*u, nation));
            assert(shown@.take((k + 1) as int).drop_last() =~= shown@.take(k as int));
            assert(pkt.data@ =~= old(pkt).data@ + bdw_lines_bytes(users@, shown@.take((k + 1) as int), nation));
        }
        k = k + 1;
    }
    assert(shown@.take(shown@.len() as int) =~= shown@);
}

/// A nation's part of the Border Defence War ranking.
fn write_bdw_section(pkt: &mut Packet, users: &[EventRoomUser], nation: u8) -> (ghost_order: Ghost<Seq<usize>>)
    ensures
        final(pkt).opcode == old(pkt).opcode,
        is_ranking_order(
            ghost_order@,
            bdw_points_of(users@, listed_indices(users@, users@.len() as int)),
            Seq::new(listed_indices(users@, users@.len() as int).len(), |i: int| 0u32),
        ),
        final(pkt).data@ == old(pkt).data@ + bdw_section_bytes(users@, ghost_order@, nation),
{
    let idx = list_room_users(users);
    let mut points: Vec<u32> = Vec::new();
    let mut j: usize = 0;
    while j < idx.len()
        invariant
            j <= idx@.len(),
            forall|t: int| 0 <= t < idx@.len() ==> #[trigger] idx@[t] < users@.len(),
            points@ == bdw_points_of(users@, idx@.take(j as int)),
        decreases idx@.len() - j,
    {
        points.push(users[idx[j]].bdw_points);
        assert(bdw_points_of(users@, idx@.take((j + 1) as int)) =~= bdw_points_of(users@, idx@.take(j as int)).push(
            users@[idx@[j as int] as int].bdw_points,
        ));
        j = j + 1;
    }
    assert(idx@.take(idx@.len() as int) =~= idx@);
    let order = bdw_ranking_order(points.as_slice());
    let shown = shown_in_order(users, &idx, &order, BDW_SHOWN);
    pkt.write_u16(shown.len() as u16);
    write_bdw_lines(pkt, users, &shown, nation);
    assert(pkt.data@ =~= old(pkt).data@ + bdw_section_bytes(users@, order@, nation));
    Ghost(order@)
}

/// The Border Defence War ranking of a room for given orders of each
/// nation's listed users: both nations' lines, then the asker's EXP preview
/// for the points of the last user bearing the asker's name.
pub open spec fn bdw_ranking_bytes(
    karus: Seq<EventRoomUser>,
    ok: Seq<usize>,
    elmorad: Seq<EventRoomUser>,
    oe: Seq<usize>,
    requester_name: Seq<char>,
    requester_nation: u8,
    requester_level: u8,
) -> Seq<u8> {
    let my_points = last_points_of(elmorad, requester_name, last_points_of(karus, requester_name, 0));
    let exp = spec_event_exp(requester_level, 5 * my_points as nat);
    u8_le(RANK_TYPE_ZONE_BORDER_DEFENSE_WAR) + bdw_section_bytes(karus, ok, requester_nation) + bdw_section_bytes(
        elmorad,
        oe,
        requester_nation,
    ) + u64_le(exp as u64) + u64_le(spec_premium_exp(exp) as u64)
}

/// A valid order of a room's listed users for the Border Defence War.
pub open spec fn is_bdw_room_order(order: Seq<usize>, users: Seq<EventRoomUser>) -> bool {
    is_ranking_order(
        order,
        bdw_points_of(users, listed_indices(users, users.len() as int)),
        Seq::new(listed_indices(users, users.len() as int).len(), |i: int| 0u32),
    )
}

/// The answer to a Border Defence War ranking request: the empty answer
/// while the event is not running or the asker is in no room; else each
/// nation's named users that have not logged out, by points (highest
/// first, ties as the room lists them), the first eight still in the game
/// shown with the asker's nation, and the asker's EXP preview.
pub fn answer_bdw_ranking(
    is_active: bool,
    in_room: bool,
    karus: &[EventRoomUser],
    elmorad: &[EventRoomUser],
    requester_name: &String,
    requester_nation: u8,
    requester_level: u8,
) -> (pkt: Packet)
    ensures
        pkt.opcode == WIZ_RANK,
        !(is_active && in_room) ==> pkt.data@ == u8_le(RANK_TYPE_ZONE_BORDER_DEFENSE_WAR) + u16_le(0) + u16_le(0)
            + u64_le(0) + u64_le(0),
        is_active && in_room ==> exists|ok: Seq<usize>, oe: Seq<usize>|
            #![trigger is_bdw_room_order(ok, karus@), is_bdw_room_order(oe, elmorad@)]
            is_bdw_room_order(ok, karus@) && is_bdw_room_order(oe, elmorad@) && pkt.data@ == bdw_ranking_bytes(
                karus@,
                ok,
                elmorad@,
                oe,
                requester_name@,
                requester_nation,
                requester_level,
            ),
{
    if !(is_active && in_room) {
        return build_bdw_empty_packet();
    }
    let my_points = find_last_points(elmorad, requester_name, find_last_points(karus, requester_name, 0));
    let mut pkt = Packet::new(WIZ_RANK);
    pkt.write_u8(RANK_TYPE_ZONE_BORDER_DEFENSE_WAR);
    let ok = write_bdw_section(&mut pkt, karus, requester_nation);
    let oe = write_bdw_section(&mut pkt, elmorad, requester_nation);
    let (exp, premium) = bdw_user_point_exp(requester_level, my_points);
    pkt.write_i64(exp);
    pkt.write_i64(premium);
    proof {
        assert(is_bdw_room_order(ok@, karus@));
        assert(is_bdw_room_order(oe@, elmorad@));
        assert(pkt.data@ =~= bdw_ranking_bytes(
            karus@,
            ok@,
            elmorad@,
            oe@,
            requester_name@,
            requester_nation,
            requester_level,
        ));
    }
    pkt
}

/// Chaos Dungeon lines shown.
pub const CHAOS_SHOWN: usize = 19;

/// One Chaos Dungeon line: name, kills and deaths (their low 16 bits).
pub open spec fn chaos_line_bytes(u: EventRoomUser) -> Seq<u8> {
    dbyte_string(vstd::utf8::encode_utf8(u.name@)) + u16_le(u.kills as u16) + u16_le(u.deaths as u16)
}

pub open spec fn chaos_lines_bytes(users: Seq<EventRoomUser>, shown: Seq<usize>) -> Seq<u8>
    decreases shown.len(),
{
    if shown.len() == 0 {
        Seq::empty()
    } else {
        chaos_lines_bytes(users, shown.drop_last()) + chaos_line_bytes(users[shown.last() as int])
    }
}

/// Kills and deaths of the last listed user bearing the name; none when
/// no listed user does.
pub open spec fn last_score_of(users: Seq<EventRoomUser>, idx: Seq<usize>, name: Seq<char>) -> (u32, u32)
    decreases idx.len(),
{
    if idx.len() == 0 {
        (0u32, 0u32)
    } else if users[idx.last() as int].name@ == name {
        (users[idx.last() as int].kills, users[idx.last() as int].deaths)
    } else {
        last_score_of(users, idx.drop_last(), name)
    }
}

/// The Chaos Dungeon EXP preview and its premium form, as integers.
pub open spec fn chaos_exp_pair(level: u8, kills: u32, deaths: u32) -> (int, int) {
    if spec_chaos_score(kills, deaths) <= 0 {
        (0, 0)
    } else {
        let exp = spec_event_exp(level, spec_chaos_score(kills, deaths) as nat);
        (exp as int, spec_premium_exp(exp) as int)
    }
}

/// The Chaos Dungeon ranking of a room for a given order of its listed
/// users: at most nineteen lines, then the asker's EXP preview (each in
/// its low 32 bits) and a trailing 1.
pub open spec fn chaos_ranking_bytes(
    users: Seq<EventRoomUser>,
    order: Seq<usize>,
    requester_name: Seq<char>,
    requester_level: u8,
) -> Seq<u8> {
    let idx = listed_indices(users, users.len() as int);
    let all = present_in_order(users, idx, order, order.len() as int);
    let shown = all.take(if all.len() > 19 { 19 } else { all.len() as int });
    let my = last_score_of(users, idx, requester_name);
    let exp = chaos_exp_pair(requester_level, my.0, my.1);
    u8_le(RANK_TYPE_CHAOS_DUNGEON) + u8_le(shown.len() as u8) + chaos_lines_bytes(users, shown) + u32_le(
        exp.0 as i64 as i32 as u32,
    ) + u32_le(exp.1 as i64 as i32 as u32) + u32_le(1)
}

/// A valid order of a room's listed users for the Chaos Dungeon.
pub open spec fn is_chaos_room_order(order: Seq<usize>, users: Seq<EventRoomUser>) -> bool {
    is_ranking_order(
        order,
        kills_of(users, listed_indices(users, users.len() as int)),
        deaths_of(users, listed_indices(users, users.len() as int)),
    )
}

fn find_last_score(users: &[EventRoomUser], idx: &Vec<usize>, name: &String) -> (r: (u32, u32))
    requires
        forall|j: int| 0 <= j < idx@.len() ==> #[trigger] idx@[j] < users@.len(),
    ensures
        r == last_score_of(users@, idx@, name@),
{
    let mut r: (u32, u32) = (0, 0);
    let mut i: usize = 0;
    while i < idx.len()
        invariant
            forall|j: int| 0 <= j < idx@.len() ==> #[trigger] idx@[j] < users@.len(),
            i <= idx@.len(),
            r == last_score_of(users@, idx@.take(i as int), name@),
        decreases idx@.len() - i,
    {
        let u = &users[idx[i]];
        if u.name == *name {
            r = (u.kills, u.deaths);
        }
        assert(idx@.take((i + 1) as int).drop_last() =~= idx@.take(i as int));
        i = i + 1;
    }
    assert(idx@.take(idx@.len() as int) =~= idx@);
    r
}

fn write_chaos_lines(pkt: &mut Packet, users: &[EventRoomUser], shown: &Vec<usize>)
    requires
        forall|j: int| 0 <= j < shown@.len() ==> #[trigger] shown@[j] < users@.len(),
    ensures
        final(pkt).opcode == old(pkt).opcode,
        final(pkt).data@ == old(pkt).data@ + chaos_lines_bytes(users@, shown@),
{
    let mut k: usize = 0;
    while k < shown.len()
        invariant
            forall|j: int| 0 <= j < shown@.len() ==> #[trigger] shown@[j] < users@.len(),
            k <= shown@.len(),
            pkt.opcode == old(pkt).opcode,
            pkt.data@ == old(pkt).data@ + chaos_lines_bytes(users@, shown@.take(k as int)),
        decreases shown@.len() - k,
    {
        let u = &users[shown[k]];
        let ghost before = pkt.data@;
        pkt.write_string(u.name.as_str());
        pkt.write_u16(u.kills as u16);
        pkt.write_u16(u.deaths as u16);
        proof {
            assert(pkt.data@ =~= before + chaos_line_bytes(*u));
            assert(shown@.take((k + 1) as int).drop_last() =~= shown@.take(k as int));
            assert(pkt.data@ =~= old(pkt).data@ + chaos_lines_bytes(users@, shown@.take((k + 1) as int)));
        }
        k = k + 1;
    }
    assert(shown@.take(shown@.len() as int) =~= shown@);
}

/// The answer to a Chaos Dungeon ranking request: the empty answer while
/// the event is not running or the asker is in no room; else the room's
/// named users that have not logged out, by kills (highest first), then
/// deaths (lowest first), ties as the room lists them, the first nineteen
/// still in the game shown, and the asker's EXP preview for the score of
/// the last listed user bearing the asker's name.
pub fn answer_chaos_ranking(
    is_active: bool,
    in_room: bool,
    users: &[EventRoomUser],
    requester_name: &String,
    requester_level: u8,
) -> (pkt: Packet)
    ensures
        pkt.opcode == WIZ_RANK,
        !(is_active && in_room) ==> pkt.data@ == u8_le(RANK_TYPE_CHAOS_DUNGEON) + u8_le(0) + u32_le(0) + u32_le(0)
            + u32_le(1),
        is_active && in_room ==> exists|order: Seq<usize>|
            #[trigger] is_chaos_room_order(order, users@) && pkt.data@ == chaos_ranking_bytes(
                users@,
                order,
                requester_name@,
                requester_level,
            ),
{
    if !(is_active && in_room) {
        return build_chaos_empty_packet();
    }
    let idx = list_room_users(users);
    let mut kills: Vec<u32> = Vec::new();
    let mut deaths: Vec<u32> = Vec::new();
    let mut j: usize = 0;
    while j < idx.len()
        invariant
            j <= idx@.len(),
            forall|t: int| 0 <= t < idx@.len() ==> #[trigger] idx@[t] < users@.len(),
            kills@ == kills_of(users@, idx@.take(j as int)),
            deaths@ == deaths_of(users@, idx@.take(j as int)),
        decreases idx@.len() - j,
    {
        kills.push(users[idx[j]].kills);
        deaths.push(users[idx[j]].deaths);
        assert(kills_of(users@, idx@.take((j + 1) as int)) =~= kills_of(users@, idx@.take(j as int)).push(
            users@[idx@[j as int] as int].kills,
        ));
        assert(deaths_of(users@, idx@.take((j + 1) as int)) =~= deaths_of(users@, idx@.take(j as int)).push(
            users@[idx@[j as int] as int].deaths,
        ));
        j = j + 1;
    }
    assert(idx@.take(idx@.len() as int) =~= idx@);
    let order = chaos_ranking_order(kills.as_slice(), deaths.as_slice());
    let shown = shown_in_order(users, &idx, &order, CHAOS_SHOWN);
    let my = find_last_score(users, &idx, requester_name);
    let mut pkt = Packet::new(WIZ_RANK);
    pkt.write_u8(RANK_TYPE_CHAOS_DUNGEON);
    pkt.write_u8(shown.len() as u8);
    write_chaos_lines(&mut pkt, users, &shown);
    let (exp, premium) = chaos_user_exp(requester_level, my.0, my.1);
    pkt.write_i32(exp as i32);
    pkt.write_i32(premium as i32);
    pkt.write_u32(1);
    proof {
        assert(is_chaos_room_order(order@, users@));
        assert(pkt.data@ =~= chaos_ranking_bytes(users@, order@, requester_name@, requester_level));
    }
    pkt
}

/// Where a ranking request goes.
#[derive(Debug, Clone, Copy, PartialEq, Eq, Structural)]
pub enum RankRoute {
    /// No answer.
    Ignore,
    /// The PK zone ranking: players and the zone's bots, each line with
    /// its own nation.
    PkZone,
    /// The special event (war zone) ranking: players only, each line with
    /// the asker's nation.
    SpecialEvent,
    BorderDefenceWar,
    ChaosDungeon,
}

/// Routes a ranking request `[u8 type]`: nothing outside the game, while
/// the rankings are being updated, for an empty request or an unknown
/// type; a PK zone request in a war zone is the special event ranking.
pub fn route_rank_request(in_game: bool, update_in_progress: bool, data: &[u8], is_war_zone: bool) -> (r: RankRoute)
    ensures
        !in_game || update_in_progress || data@.len() == 0 ==> r == RankRoute::Ignore,
        in_game && !update_in_progress && data@.len() > 0 ==> r == (if data@[0] == RANK_TYPE_PK_ZONE {
            if is_war_zone {
                RankRoute::SpecialEvent
            } else {
                RankRoute::PkZone
            }
        } else if data@[0] == RANK_TYPE_ZONE_BORDER_DEFENSE_WAR {
            RankRoute::BorderDefenceWar
        } else if data@[0] == RANK_TYPE_CHAOS_DUNGEON {
            RankRoute::ChaosDungeon
        } else {
            RankRoute::Ignore
        }),
{
    if !in_game || update_in_progress || data.len() == 0 {
        return RankRoute::Ignore;
    }
    let t = data[0];
    if t == RANK_TYPE_PK_ZONE {
        if is_war_zone {
            RankRoute::SpecialEvent
        } else {
            RankRoute::PkZone
        }
    } else if t == RANK_TYPE_ZONE_BORDER_DEFENSE_WAR {
        RankRoute::BorderDefenceWar
    } else if t == RANK_TYPE_CHAOS_DUNGEON {
        RankRoute::ChaosDungeon
    } else {
        RankRoute::Ignore
    }
}

/// `n` distinct indices below `n` are all the indices below `n`.
proof fn lemma_distinct_below_covers(s: Seq<usize>, n: nat)
    requires
        s.len() == n,
        forall|k: int| 0 <= k < s.len() ==> #[trigger] s[k] < n,
        forall|i: int, j: int| 0 <= i < s.len() && 0 <= j < s.len() && i != j ==> s[i] != s[j],
    ensures
        forall|v: usize| v < n ==> s.contains(v),
    decreases n,
{
    if n > 0 {
        let top = (n - 1) as usize;
        if s.contains(top) {
            let p = choose|p: int| 0 <= p < s.len() && s[p] == top;
            let t = s.remove(p);
            assert forall|k: int| 0 <= k < t.len() implies #[trigger] t[k] < (n - 1) as nat by {
                if k < p {
                    assert(t[k] == s[k]);
                } else {
                    assert(t[k] == s[k + 1]);
                }
            }
            assert forall|i: int, j: int| 0 <= i < t.len() && 0 <= j < t.len() && i != j implies t[i] != t[j] by {
                let si = if i < p { i } else { i + 1 };
                let sj = if j < p { j } else { j + 1 };
                assert(t[i] == s[si] && t[j] == s[sj]);
            }
            lemma_distinct_below_covers(t, (n - 1) as nat);
            assert forall|v: usize| v < n implies s.contains(v) by {
                if v == top {
                    assert(s[p] == v);
                } else {
                    assert(t.contains(v));
                    let k = choose|k: int| 0 <= k < t.len() && t[k] == v;
                    if k < p {
                        assert(s[k] == v);
                    } else {
                        assert(s[k + 1] == v);
                    }
                }
            }
        } else {
            let t = s.drop_last();
            assert forall|k: int| 0 <= k < t.len() implies #[trigger] t[k] < (n - 1) as nat by {
                assert(t[k] == s[k]);
                if s[k] == top {
                    assert(s.contains(top));
                }
            }
            lemma_distinct_below_covers(t, (n - 1) as nat);
            let last = s[n - 1];
            if last == top {
                assert(s.contains(top));
            }
            assert(t.contains(last));
            let k = choose|k: int| 0 <= k < t.len() && t[k] == last;
            assert(s[k] == s[n - 1]);
        }
    }
}

proof fn lemma_ranking_orders_agree_from(
    o1: Seq<usize>,
    o2: Seq<usize>,
    primary: Seq<u32>,
    secondary: Seq<u32>,
    k: int,
)
    requires
        is_ranking_order(o1, primary, secondary),
        is_ranking_order(o2, primary, secondary),
        0 <= k <= o1.len(),
        forall|j: int| 0 <= j < k ==> o1[j] == o2[j],
    ensures
        o1 == o2,
    decreases o1.len() - k,
{
    if k == o1.len() {
        assert(o1 =~= o2);
    } else {
        if o1[k] != o2[k] {
            let n = primary.len();
            assert forall|i: int, j: int| 0 <= i < o2.len() && 0 <= j < o2.len() && i != j implies o2[i] != o2[j] by {
                if i < j {
                    assert(ranks_before(primary, secondary, o2[i] as int, o2[j] as int));
                } else {
                    assert(ranks_before(primary, secondary, o2[j] as int, o2[i] as int));
                }
            }
            assert forall|i: int, j: int| 0 <= i < o1.len() && 0 <= j < o1.len() && i != j implies o1[i] != o1[j] by {
                if i < j {
                    assert(ranks_before(primary, secondary, o1[i] as int, o1[j] as int));
                } else {
                    assert(ranks_before(primary, secondary, o1[j] as int, o1[i] as int));
                }
            }
            lemma_distinct_below_covers(o1, n);
            lemma_distinct_below_covers(o2, n);
            let x = o1[k];
            let y = o2[k];
            assert(o2.contains(x));
            assert(o1.contains(y));
            let j = choose|j: int| 0 <= j < o2.len() && o2[j] == x;
            let i = choose|i: int| 0 <= i < o1.len() && o1[i] == y;
            if j < k {
                assert(o1[j] == x);
            } else if i < k {
                assert(o2[i] == y);
            } else {
                assert(ranks_before(primary, secondary, y as int, x as int));
                assert(ranks_before(primary, secondary, x as int, y as int));
            }
        }
        lemma_ranking_orders_agree_from(o1, o2, primary, secondary, k + 1);
    }
}

/// The ranking order of given entries is unique: a ranking answer is
/// fully determined by its entries.
pub proof fn lemma_ranking_order_unique(o1: Seq<usize>, o2: Seq<usize>, primary: Seq<u32>, secondary: Seq<u32>)
    requires
        is_ranking_order(o1, primary, secondary),
        is_ranking_order(o2, primary, secondary),
    ensures
        o1 == o2,
{
    lemma_ranking_orders_agree_from(o1, o2, primary, secondary, 0);
}

proof fn lemma_pk_orders_agree_from(o1: Seq<usize>, o2: Seq<usize>, es: Seq<PkRankEntry>, k: int)
    requires
        is_pk_order(o1, es),
        is_pk_order(o2, es),
        0 <= k <= o1.len(),
        forall|j: int| 0 <= j < k ==> o1[j] == o2[j],
    ensures
        o1 == o2,
    decreases o1.len() - k,
{
    if k == o1.len() {
        assert(o1 =~= o2);
    } else {
        if o1[k] != o2[k] {
            let n = es.len();
            assert forall|i: int, j: int| 0 <= i < o2.len() && 0 <= j < o2.len() && i != j implies o2[i] != o2[j] by {
                lemma_pk_before_strict_total(es, o2[i] as int, o2[j] as int, o2[i] as int);
                if i < j {
                    assert(pk_before(es, o2[i] as int, o2[j] as int));
                } else {
                    assert(pk_before(es, o2[j] as int, o2[i] as int));
                }
            }
            assert forall|i: int, j: int| 0 <= i < o1.len() && 0 <= j < o1.len() && i != j implies o1[i] != o1[j] by {
                lemma_pk_before_strict_total(es, o1[i] as int, o1[j] as int, o1[i] as int);
                if i < j {
                    assert(pk_before(es, o1[i] as int, o1[j] as int));
                } else {
                    assert(pk_before(es, o1[j] as int, o1[i] as int));
                }
            }
            lemma_distinct_below_covers(o1, n);
            lemma_distinct_below_covers(o2, n);
            let x = o1[k];
            let y = o2[k];
            assert(o2.contains(x));
            assert(o1.contains(y));
            let j = choose|j: int| 0 <= j < o2.len() && o2[j] == x;
            let i = choose|i: int| 0 <= i < o1.len() && o1[i] == y;
            if j < k {
                assert(o1[j] == x);
            } else if i < k {
                assert(o2[i] == y);
            } else {
                assert(pk_before(es, y as int, x as int));
                assert(pk_before(es, x as int, y as int));
                lemma_pk_before_strict_total(es, x as int, y as int, x as int);
            }
        }
        lemma_pk_orders_agree_from(o1, o2, es, k + 1);
    }
}

/// The PK ranking order of given entries is unique.
pub proof fn lemma_pk_order_unique(o1: Seq<usize>, o2: Seq<usize>, es: Seq<PkRankEntry>)
    requires
        is_pk_order(o1, es),
        is_pk_order(o2, es),
    ensures
        o1 == o2,
{
    lemma_pk_orders_agree_from(o1, o2, es, 0);
}

} // verus!
