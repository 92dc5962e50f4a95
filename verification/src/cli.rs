use vstd::prelude::*;

use crate::calc::{
    calculate, get_hand_score, score_computable, score_defined, score_result, spec_calculate, spec_get_yaku_han,
    spec_hand_score, sum_han,
};
use crate::fu::{spec_fu_label, Fu};
use crate::hand::model::{opt_views, views, HandView};
use crate::hand::guards::from_strings_computable;
use crate::hand::{from_strings_defined, hand_result, spec_from_strings, string_views, Hand};
use crate::score::{Score, ScoreView};
use crate::tile_group::{spec_try_from, view_result, TileGroup, TileView};
use crate::yaku::{spec_is_yakuman, spec_yaku_label, Yaku};
use crate::chars::{decimal, decimal_string};
use crate::hand::error::HandErr;
use crate::payment::{
    payments_fit, spec_dealer_ron, spec_dealer_tsumo, spec_non_dealer_ron,
    spec_non_dealer_tsumo_to_dealer, spec_non_dealer_tsumo_to_non_dealer, Payment,
};
use crate::score::{FuValue, HanValue, HonbaCounter};

verus! {

/// What a scoring request holds: a hand with its round context, or the han and fu of the
/// calculator mode.
pub struct Args {
    /// Hand tiles.
    pub tiles: Option<Vec<String>>,
    /// Winning tile.
    pub win: Option<String>,
    /// Dora indicator tiles.
    pub dora: Option<Vec<String>>,
    /// Seat wind.
    pub seat: String,
    /// Prevalent wind.
    pub prev: String,
    pub tsumo: bool,
    pub riichi: bool,
    pub doubleriichi: bool,
    pub ippatsu: bool,
    pub haitei: bool,
    pub rinshan: bool,
    pub chankan: bool,
    /// Tenhou or chiihou.
    pub tenhou: bool,
    /// Honba count.
    pub ba: HonbaCounter,
    /// Calculator mode: the han and the fu.
    pub manual: Option<Vec<u32>>,
}

/// A text result seen through its characters.
pub open spec fn text_result(r: Result<String, HandErr>) -> Result<Seq<char>, HandErr> {
    match r {
        Ok(s) => Ok(s@),
        Err(e) => Err(e),
    }
}

/// The calculator's report: the han and fu (and honba, when there are any), then what a
/// dealer and a non-dealer are paid.
pub open spec fn calc_text(han: nat, fu: nat, honba: nat, base: nat) -> Seq<char> {
    let head = "\n"@ + decimal(han) + " Han/ "@ + decimal(fu) + " Fu"@;
    let head = if honba != 0 {
        head + "/ "@ + decimal(honba) + " Honba"@
    } else {
        head
    };
    head + "\nDealer: "@ + decimal(spec_dealer_ron(base, honba)) + " ("@ + decimal(
        spec_dealer_tsumo(base, honba),
    ) + ")\nnon-dealer: "@ + decimal(spec_non_dealer_ron(base, honba)) + " ("@ + decimal(
        spec_non_dealer_tsumo_to_non_dealer(base, honba),
    ) + "/"@ + decimal(spec_non_dealer_tsumo_to_dealer(base, honba)) + ")"@
}

/// Appends the decimal writing of `n`.
fn append_number(s: &mut String, n: u64)
    ensures
        final(s)@ == old(s)@ + decimal(n as nat),
{
    let d = decimal_string(n);
    s.append(d.as_str());
}

/// The calculator's text report of a payment.
pub fn default_calc_out(payment: &Payment, honba: HonbaCounter, han: HanValue, fu: FuValue) -> (r:
    String)
    requires
        payments_fit(payment@, honba as nat),
    ensures
        r@ == calc_text(han as nat, fu as nat, honba as nat, payment@),
{
    let mut out = String::from_str("\n");
    append_number(&mut out, han as u64);
    out.append(" Han/ ");
    append_number(&mut out, fu);
    out.append(" Fu");
    if honba != 0 {
        out.append("/ ");
        append_number(&mut out, honba);
        out.append(" Honba");
    }
    out.append("\nDealer: ");
    append_number(&mut out, payment.dealer_ron(honba));
    out.append(" (");
    append_number(&mut out, payment.dealer_tsumo(honba));
    out.append(")\nnon-dealer: ");
    append_number(&mut out, payment.non_dealer_ron(honba));
    out.append(" (");
    append_number(&mut out, payment.non_dealer_tsumo_to_non_dealer(honba));
    out.append("/");
    append_number(&mut out, payment.non_dealer_tsumo_to_dealer(honba));
    out.append(")");
    out
}

/// The han of the calculator mode.
pub open spec fn manual_han(args: Args) -> nat {
    args.manual.unwrap()@[0] as nat
}

/// The fu of the calculator mode.
pub open spec fn manual_fu(args: Args) -> nat {
    args.manual.unwrap()@[1] as nat
}

/// The calculator mode: the payment for the given han and fu, as a text report.
pub fn parse_calculator(args: &Args) -> (r: Result<String, HandErr>)
    requires
        args.manual is Some,
        args.manual.unwrap()@.len() >= 2,
        spec_calculate(manual_han(*args), manual_fu(*args)) matches Ok(b) ==> payments_fit(
            b,
            args.ba as nat,
        ),
    ensures
        text_result(r) == match spec_calculate(manual_han(*args), manual_fu(*args)) {
            Err(e) => Err(e),
            Ok(b) => Ok(calc_text(manual_han(*args), manual_fu(*args), args.ba as nat, b)),
        },
{
    let honba = args.ba;
    let manual = match &args.manual {
        Some(m) => m,
        None => {
            assert(false);
            return Err(HandErr::NoHan);
        },
    };
    let han = manual[0];
    let fu = manual[1] as u64;
    let payment = match calculate(han, fu) {
        Ok(p) => p,
        Err(e) => return Err(e),
    };
    Ok(default_calc_out(&payment, honba, han, fu))
}

/// The yaku lines of the hand report.
pub open spec fn yaku_lines(ys: Seq<Yaku>, is_open: bool) -> Seq<char>
    decreases ys.len(),
{
    if ys.len() == 0 {
        Seq::empty()
    } else {
        yaku_lines(ys.drop_last(), is_open) + "\n  "@ + spec_yaku_label(ys.last(), is_open)
    }
}

/// The fu lines of the hand report.
pub open spec fn fu_lines(fu: Seq<Fu>) -> Seq<char>
    decreases fu.len(),
{
    if fu.len() == 0 {
        Seq::empty()
    } else {
        fu_lines(fu.drop_last()) + "\n  "@ + spec_fu_label(fu.last())
    }
}

/// The first line of a hand report: the han and the fu, and the honba when there are any.
pub open spec fn score_line(sv: ScoreView) -> Seq<char> {
    if sv.honba != 0 {
        "\n"@ + decimal(sv.han) + " Han/ "@ + decimal(sv.fu_score) + " Fu/ "@ + decimal(sv.honba)
            + " Honba"@
    } else {
        "\n"@ + decimal(sv.han) + " Han/ "@ + decimal(sv.fu_score) + " Fu"@
    }
}

/// The payment lines of a hand report: what a dealer and a non-dealer are paid.
pub open spec fn payment_lines(b: nat, h: nat) -> Seq<char> {
    "\nDealer: "@ + decimal(spec_dealer_ron(b, h)) + " ("@ + decimal(spec_dealer_tsumo(b, h))
        + ")\nNon-dealer: "@ + decimal(spec_non_dealer_ron(b, h)) + " ("@ + decimal(
        spec_non_dealer_tsumo_to_non_dealer(b, h),
    ) + "/"@ + decimal(spec_non_dealer_tsumo_to_dealer(b, h)) + ")"@
}

/// The dora line of a hand report, left out when there are no dora.
pub open spec fn dora_line(sv: ScoreView) -> Seq<char> {
    if sv.dora_count != 0 {
        "\nDora: "@ + decimal(sv.dora_count)
    } else {
        Seq::empty()
    }
}

/// The hand report. When the first yaku is a yakuman it holds only the payments and the
/// yaku; otherwise the han and fu line, the payments, the dora, the yaku and the fu.
pub open spec fn hand_text(sv: ScoreView) -> Seq<char> {
    let pay = payment_lines(sv.payment, sv.honba);
    let yaku = "\nYaku: "@ + yaku_lines(sv.yaku, sv.is_open);
    if spec_is_yakuman(sv.yaku[0]) {
        pay + yaku
    } else {
        score_line(sv) + pay + dora_line(sv) + yaku + "\nFu: "@ + fu_lines(sv.fu)
    }
}

/// The text report of a scored hand.
#[verifier::rlimit(40)]
pub fn default_hand_out(score: &Score) -> (r: String)
    requires
        score@.yaku.len() > 0,
        payments_fit(score@.payment, score@.honba),
    ensures
        r@ == hand_text(score@),
{
    let ghost sv = score@;
    let mut out: String = String::new();
    let yaku = score.yaku();
    let ym = yaku[0].is_yakuman();
    if !ym {
        out.append("\n");
        append_number(&mut out, score.han() as u64);
        out.append(" Han/ ");
        append_number(&mut out, score.fu_score());
        if score.honba() != 0 {
            out.append(" Fu/ ");
            append_number(&mut out, score.honba());
            out.append(" Honba");
        } else {
            out.append(" Fu");
        }
    }
    assert(!ym ==> out@ =~= score_line(sv));
    assert(ym ==> out@ =~= Seq::<char>::empty());
    let ghost head = out@;
    let honba = score.honba();
    let payment = score.payment();
    out.append("\nDealer: ");
    append_number(&mut out, payment.dealer_ron(honba));
    out.append(" (");
    append_number(&mut out, payment.dealer_tsumo(honba));
    out.append(")\nNon-dealer: ");
    append_number(&mut out, payment.non_dealer_ron(honba));
    out.append(" (");
    append_number(&mut out, payment.non_dealer_tsumo_to_non_dealer(honba));
    out.append("/");
    append_number(&mut out, payment.non_dealer_tsumo_to_dealer(honba));
    out.append(")");
    assert(out@ =~= head + payment_lines(sv.payment, sv.honba));
    let ghost paid = out@;
    if !ym && score.dora_count() != 0 {
        out.append("\nDora: ");
        append_number(&mut out, score.dora_count() as u64);
    }
    assert(!ym ==> out@ =~= paid + dora_line(sv));
    assert(ym ==> out@ == paid);
    out.append("\nYaku: ");
    let ghost before_yaku = out@;
    let is_open = score.is_open();
    let mut i: usize = 0;
    while i < yaku.len()
        invariant
            yaku@ == sv.yaku,
            is_open == sv.is_open,
            i <= yaku.len(),
            out@ == before_yaku + yaku_lines(yaku@.take(i as int), is_open),
        decreases yaku.len() - i,
    {
        proof {
            assert(yaku@.take(i + 1).drop_last() =~= yaku@.take(i as int));
        }
        out.append("\n  ");
        let line = yaku[i].to_string(is_open);
        out.append(line.as_str());
        proof {
            assert(out@ =~= before_yaku + yaku_lines(yaku@.take(i + 1), is_open));
        }
        i += 1;
    }
    proof {
        assert(yaku@.take(yaku.len() as int) =~= yaku@);
    }
    if !ym {
        out.append("\nFu: ");
        let ghost before_fu = out@;
        let fu = score.fu();
        let mut k: usize = 0;
        while k < fu.len()
            invariant
                fu@ == sv.fu,
                k <= fu.len(),
                out@ == before_fu + fu_lines(fu@.take(k as int)),
            decreases fu.len() - k,
        {
            proof {
                assert(fu@.take(k + 1).drop_last() =~= fu@.take(k as int));
            }
            out.append("\n  ");
            let line = fu[k].to_string();
            out.append(line.as_str());
            proof {
                assert(out@ =~= before_fu + fu_lines(fu@.take(k + 1)));
            }
            k += 1;
        }
        proof {
            assert(fu@.take(fu.len() as int) =~= fu@);
        }
    }
    proof {
        assert(out@ =~= hand_text(sv));
    }
    out
}

/// The order in which the round flags are checked, and the error of each conflict.
pub open spec fn spec_flags_check(args: Args) -> Result<(), HandErr> {
    if args.tiles is None {
        Err(HandErr::NoHandTiles)
    } else if args.win is None {
        Err(HandErr::NoWinTile)
    } else if args.tsumo && args.chankan {
        Err(HandErr::ChankanTsumo)
    } else if args.rinshan && !args.tsumo {
        Err(HandErr::RinshanWithoutTsumo)
    } else if args.rinshan && args.ippatsu {
        Err(HandErr::RinshanIppatsu)
    } else if args.riichi && args.doubleriichi {
        Err(HandErr::DuplicateRiichi)
    } else if args.ippatsu && !(args.riichi || args.doubleriichi) {
        Err(HandErr::IppatsuWithoutRiichi)
    } else if args.doubleriichi && args.ippatsu && args.haitei {
        Err(HandErr::DoubleRiichiHaiteiIppatsu)
    } else if args.doubleriichi && args.haitei && args.chankan {
        Err(HandErr::DoubleRiichiHaiteiChankan)
    } else {
        Ok(())
    }
}

/// The dora indicators that name a group, in order; the others are left out.
pub open spec fn parsed_doras(ss: Seq<Seq<char>>) -> Seq<TileView>
    decreases ss.len(),
{
    if ss.len() == 0 {
        Seq::empty()
    } else {
        match spec_try_from(ss.last()) {
            Ok(t) => parsed_doras(ss.drop_last()).push(t),
            Err(_) => parsed_doras(ss.drop_last()),
        }
    }
}

/// The dora indicators of a request.
pub open spec fn args_doras(args: Args) -> Option<Seq<TileView>> {
    match args.dora {
        None => None,
        Some(v) => Some(parsed_doras(string_views(v@))),
    }
}

/// The hand of a request.
pub open spec fn args_hand(args: Args) -> Result<HandView, HandErr> {
    spec_from_strings(
        string_views(args.tiles.unwrap()@),
        args.win.unwrap()@,
        args.prev@,
        args.seat@,
    )
}

/// How a request is scored: its flags are checked, its hand built, then scored.
pub open spec fn spec_args_score(args: Args) -> Result<ScoreView, HandErr> {
    match spec_flags_check(args) {
        Err(e) => Err(e),
        Ok(_) => match args_hand(args) {
            Err(e) => Err(e),
            Ok(h) => spec_hand_score(
                h,
                args_doras(args),
                args.tsumo,
                args.riichi,
                args.doubleriichi,
                args.ippatsu,
                args.haitei,
                args.rinshan,
                args.chankan,
                args.tenhou,
                args.ba as nat,
            ),
        },
    }
}

/// The requests whose hand can be built and scored.
pub open spec fn args_defined(args: Args) -> bool {
    spec_flags_check(args) is Ok ==> {
        &&& from_strings_defined(
            string_views(args.tiles.unwrap()@),
            args.win.unwrap()@,
            args.prev@,
            args.seat@,
        )
        &&& args_hand(args) matches Ok(h) ==> score_defined(
            h,
            args_doras(args),
            args.tsumo,
            args.riichi,
            args.doubleriichi,
            args.ippatsu,
            args.haitei,
            args.rinshan,
            args.chankan,
            args.tenhou,
        )
    }
}

fn clone_strings(v: &Vec<String>) -> (r: Vec<String>)
    ensures
        string_views(r@) == string_views(v@),
{
    let mut r: Vec<String> = Vec::new();
    let mut i: usize = 0;
    while i < v.len()
        invariant
            i <= v.len(),
            string_views(r@) == string_views(v@).take(i as int),
        decreases v.len() - i,
    {
        let ghost old_r = r@;
        let c = v[i].clone();
        r.push(c);
        proof {
            assert(string_views(r@) =~= string_views(old_r).push(c@));
            assert(string_views(r@) =~= string_views(v@).take(i + 1));
        }
        i += 1;
    }
    proof {
        assert(string_views(v@).take(v.len() as int) =~= string_views(v@));
    }
    r
}

fn parse_doras(ds: &Vec<String>) -> (r: Vec<TileGroup>)
    ensures
        views(r@) == parsed_doras(string_views(ds@)),
{
    let ghost ss = string_views(ds@);
    let mut r: Vec<TileGroup> = Vec::new();
    let mut i: usize = 0;
    while i < ds.len()
        invariant
            ss == string_views(ds@),
            i <= ds.len(),
            views(r@) == parsed_doras(ss.take(i as int)),
        decreases ds.len() - i,
    {
        proof {
            assert(ss.take(i + 1).drop_last() =~= ss.take(i as int));
            assert(ss.take(i + 1).last() == ds@[i as int]@);
        }
        let ghost old_r = r@;
        match TileGroup::try_from(ds[i].clone()) {
            Ok(t) => {
                r.push(t);
                proof {
                    assert(views(r@) =~= views(old_r).push(t@));
                }
            },
            Err(_) => {},
        }
        i += 1;
    }
    proof {
        assert(ss.take(ds.len() as int) =~= ss);
    }
    r
}

/// Check that the request names a hand and a winning tile and that its round flags do
/// not conflict.
pub fn flags_check(args: &Args) -> (r: Result<(), HandErr>)
    ensures
        r == spec_flags_check(*args),
{
    if args.tiles.is_none() {
        return Err(HandErr::NoHandTiles);
    }
    if args.win.is_none() {
        return Err(HandErr::NoWinTile);
    }
    if args.tsumo && args.chankan {
        return Err(HandErr::ChankanTsumo);
    }
    if args.rinshan && (!args.tsumo) {
        return Err(HandErr::RinshanWithoutTsumo);
    }
    if args.rinshan && args.ippatsu {
        return Err(HandErr::RinshanIppatsu);
    }
    if args.riichi && args.doubleriichi {
        return Err(HandErr::DuplicateRiichi);
    }
    if args.ippatsu && !(args.riichi || args.doubleriichi) {
        return Err(HandErr::IppatsuWithoutRiichi);
    }
    if args.doubleriichi && args.ippatsu && args.haitei {
        return Err(HandErr::DoubleRiichiHaiteiIppatsu);
    }
    if args.doubleriichi && args.haitei && args.chankan {
        return Err(HandErr::DoubleRiichiHaiteiChankan);
    }
    Ok(())
}

/// Whether a request can be scored without a failure: where its flags pass, its hand can
/// be built, and then scored.
pub fn args_computable(args: &Args) -> (r: bool)
    ensures
        r == args_defined(*args),
{
    if flags_check(args).is_err() {
        return true;
    }
    let tiles = match &args.tiles {
        None => return true,
        Some(t) => t,
    };
    let win = match &args.win {
        None => return true,
        Some(w) => w,
    };
    if !from_strings_computable(tiles, win, &args.prev, &args.seat) {
        return false;
    }
    let hand = match Hand::new_from_strings(
        clone_strings(tiles),
        win.clone(),
        args.prev.clone(),
        args.seat.clone(),
    ) {
        Ok(h) => h,
        Err(_) => return true,
    };
    let doras: Option<Vec<TileGroup>> = match &args.dora {
        None => None,
        Some(ds) => Some(parse_doras(ds)),
    };
    score_computable(
        &hand,
        &doras,
        args.tsumo,
        args.riichi,
        args.doubleriichi,
        args.ippatsu,
        args.haitei,
        args.rinshan,
        args.chankan,
        args.tenhou,
    )
}

/// Check the round flags, build the hand and score it.
pub fn hand_score(args: &Args) -> (r: Result<Score, HandErr>)
    requires
        args_defined(*args),
    ensures
        score_result(r) == spec_args_score(*args),
        r matches Ok(s) ==> s@.yaku.len() > 0,
{
    if let Err(e) = flags_check(args) {
        return Err(e);
    }
    let tiles = match &args.tiles {
        None => return Err(HandErr::NoHandTiles),
        Some(t) => t,
    };
    let win = match &args.win {
        None => return Err(HandErr::NoWinTile),
        Some(w) => w,
    };
    let hand = match Hand::new_from_strings(
        clone_strings(tiles),
        win.clone(),
        args.prev.clone(),
        args.seat.clone(),
    ) {
        Ok(h) => h,
        Err(e) => return Err(e),
    };
    let doras: Option<Vec<TileGroup>> = match &args.dora {
        None => None,
        Some(ds) => Some(parse_doras(ds)),
    };
    get_hand_score(
        hand,
        doras,
        args.tsumo,
        args.riichi,
        args.doubleriichi,
        args.ippatsu,
        args.haitei,
        args.rinshan,
        args.chankan,
        args.tenhou,
        args.ba,
    )
}

/// Score a hand request and report it as text.
pub fn parse_hand(args: &Args) -> (r: Result<String, HandErr>)
    requires
        args_defined(*args),
        spec_args_score(*args) matches Ok(sv) ==> payments_fit(sv.payment, sv.honba),
    ensures
        text_result(r) == match spec_args_score(*args) {
            Err(e) => Err(e),
            Ok(sv) => Ok(hand_text(sv)),
        },
{
    match hand_score(args) {
        Err(e) => Err(e),
        Ok(score) => Ok(default_hand_out(&score)),
    }
}

} // verus!
