//! What holds across the parts of the library.

use vstd::prelude::*;

use crate::monitor::station_fault;
use crate::recorder::WebSdrConfig;
use crate::sdr::kiwi::client::{
    callsign_command, compression_command, keepalive_command, location_command, rate_reply,
    squelch_reply,
};
use crate::sdr::kiwi::opening::{login_command, opening_at};
use crate::sdr::{agc_command, switch_text, tune_command, AgcModel, Station};
use crate::text::{
    int_text, is_digit, law_numeral_round_trip, law_numerals_differ, nat_text, option_text,
};

verus! {

/// Whether a text is a command to a receiver: it begins with `SET` and a space.
pub open spec fn is_command(text: Seq<char>) -> bool {
    "SET "@.is_prefix_of(text)
}

/// Everything that is sent to a receiver is a command.
pub proof fn law_commands_begin_with_set(
    password: Option<Seq<char>>,
    agc: AgcModel,
    mode: Seq<char>,
    low_cut: int,
    high_cut: int,
    freq: Seq<char>,
    compression: bool,
    callsign: Seq<char>,
    location: Seq<char>,
)
    ensures
        is_command(login_command(password)),
        is_command(agc_command(agc)),
        is_command(tune_command(mode, low_cut, high_cut, freq)),
        is_command(compression_command(compression)),
        is_command(callsign_command(callsign)),
        is_command(location_command(location)),
        is_command(keepalive_command()),
        is_command(rate_reply()),
        is_command(squelch_reply()),
{
    reveal_strlit("SET ");
    reveal_strlit("SET auth t=kiwi p=");
    reveal_strlit("SET auth t=kiwi p=#");
    reveal_strlit("SET agc=");
    reveal_strlit("SET mod=");
    reveal_strlit("SET compression=");
    reveal_strlit("SET ident_user=");
    reveal_strlit("SET geoloc=");
    reveal_strlit("SET keepalive");
    reveal_strlit("SET AR OK in=12000 out=44100");
    reveal_strlit("SET squelch=0 param=0.00");
    assert("SET "@ =~= login_command(password).subrange(0, 4));
    assert("SET "@ =~= agc_command(agc).subrange(0, 4));
    assert("SET "@ =~= tune_command(mode, low_cut, high_cut, freq).subrange(0, 4));
    assert("SET "@ =~= compression_command(compression).subrange(0, 4));
    assert("SET "@ =~= callsign_command(callsign).subrange(0, 4));
    assert("SET "@ =~= location_command(location).subrange(0, 4));
    assert("SET "@ =~= keepalive_command().subrange(0, 4));
    assert("SET "@ =~= rate_reply().subrange(0, 4));
    assert("SET "@ =~= squelch_reply().subrange(0, 4));
}

/// A receiver that the check of the configuration passes is never refused for
/// its address or for want of a name, in whatever session it is opened.
pub proof fn law_checked_station_opens(station: WebSdrConfig, place: usize, session: int)
    requires
        station_fault(station, place) is None,
    ensures
        match opening_at(
            station.endpoint@,
            station.name@,
            option_text(station.password),
            session,
        ) {
            Ok(opening) => opening.name == station.name@ && opening.login == login_command(
                option_text(station.password),
            ),
            Err(error) => error is NoSoundEndpoint,
        },
{
}

/// A receiver that the check does not pass for its address is refused for it.
pub proof fn law_unchecked_station_is_refused(station: WebSdrConfig, place: usize, session: int)
    requires
        station_fault(station, place) is Some,
    ensures
        opening_at(station.endpoint@, station.name@, option_text(station.password), session)
            matches Err(error) && error is InvalidEndpoint,
{
}

/// Whether a text holds no space.
spec fn is_word(text: Seq<char>) -> bool {
    forall|i: int| 0 <= i < text.len() ==> #[trigger] text[i] != ' '
}

proof fn lemma_int_text_is_word(n: int)
    ensures
        is_word(int_text(n)),
{
    let m = if n < 0 {
        -n
    } else {
        n
    };
    law_numeral_round_trip(m as nat);
    assert forall|i: int| 0 <= i < int_text(n).len() implies #[trigger] int_text(n)[i] != ' ' by {
        if n >= 0 {
            assert(is_digit(int_text(n)[i]));
        } else if i > 0 {
            assert(is_digit(nat_text(m as nat)[i - 1]));
        }
    }
}

/// A word is found again in front of the space behind it.
proof fn lemma_cut_word(a1: Seq<char>, b1: Seq<char>, a2: Seq<char>, b2: Seq<char>)
    requires
        a1 + b1 == a2 + b2,
        is_word(a1),
        is_word(a2),
        b1.len() > 0 && b1[0] == ' ',
        b2.len() > 0 && b2[0] == ' ',
    ensures
        a1 == a2,
        b1 == b2,
{
    let whole = a1 + b1;
    if a1.len() < a2.len() {
        assert(whole[a1.len() as int] == b1[0]);
        assert(whole[a1.len() as int] == a2[a1.len() as int]);
    } else if a2.len() < a1.len() {
        assert(whole[a2.len() as int] == b2[0]);
        assert(whole[a2.len() as int] == a1[a2.len() as int]);
    }
    lemma_cut(a1, b1, a2, b2);
}

/// Texts that begin with parts of the same length are equal part by part.
proof fn lemma_cut(a1: Seq<char>, b1: Seq<char>, a2: Seq<char>, b2: Seq<char>)
    requires
        a1 + b1 == a2 + b2,
        a1.len() == a2.len(),
    ensures
        a1 == a2,
        b1 == b2,
{
    let n = a1.len() as int;
    assert(a1 =~= (a1 + b1).take(n));
    assert(a2 =~= (a2 + b2).take(n));
    assert(b1 =~= (a1 + b1).skip(n));
    assert(b2 =~= (a2 + b2).skip(n));
}

spec fn agc_tail4(agc: AgcModel) -> Seq<char> {
    " manGain="@ + int_text(agc.man_gain as int)
}

spec fn agc_tail3(agc: AgcModel) -> Seq<char> {
    " decay="@ + (int_text(agc.decay as int) + agc_tail4(agc))
}

spec fn agc_tail2(agc: AgcModel) -> Seq<char> {
    " slope="@ + (int_text(agc.slope as int) + agc_tail3(agc))
}

spec fn agc_tail1(agc: AgcModel) -> Seq<char> {
    " thresh="@ + (int_text(agc.thresh as int) + agc_tail2(agc))
}

spec fn agc_tail0(agc: AgcModel) -> Seq<char> {
    " hang="@ + (switch_text(agc.hang) + agc_tail1(agc))
}

proof fn lemma_agc_command_parts(agc: AgcModel)
    ensures
        agc_command(agc) == "SET agc="@ + (switch_text(agc.agc) + agc_tail0(agc)),
        agc_tail0(agc).len() > 0 && agc_tail0(agc)[0] == ' ',
        agc_tail1(agc).len() > 0 && agc_tail1(agc)[0] == ' ',
        agc_tail2(agc).len() > 0 && agc_tail2(agc)[0] == ' ',
        agc_tail3(agc).len() > 0 && agc_tail3(agc)[0] == ' ',
        agc_tail4(agc).len() > 0 && agc_tail4(agc)[0] == ' ',
{
    reveal_strlit(" hang=");
    reveal_strlit(" thresh=");
    reveal_strlit(" slope=");
    reveal_strlit(" decay=");
    reveal_strlit(" manGain=");
    let p1 = "SET agc="@ + switch_text(agc.agc);
    let p2 = p1 + " hang="@ + switch_text(agc.hang);
    let p3 = p2 + " thresh="@ + int_text(agc.thresh as int);
    let p4 = p3 + " slope="@ + int_text(agc.slope as int);
    let p5 = p4 + " decay="@ + int_text(agc.decay as int);
    assert(agc_command(agc) =~= p5 + agc_tail4(agc));
    assert(p5 + agc_tail4(agc) =~= p4 + agc_tail3(agc));
    assert(p4 + agc_tail3(agc) =~= p3 + agc_tail2(agc));
    assert(p3 + agc_tail2(agc) =~= p2 + agc_tail1(agc));
    assert(p2 + agc_tail1(agc) =~= p1 + agc_tail0(agc));
    assert(p1 + agc_tail0(agc) =~= "SET agc="@ + (switch_text(agc.agc) + agc_tail0(agc)));
}

proof fn lemma_switch_text(on: bool)
    ensures
        is_word(switch_text(on)),
        switch_text(on).len() == 1,
        switch_text(on)[0] == (if on {
            '1'
        } else {
            '0'
        }),
{
    reveal_strlit("1");
    reveal_strlit("0");
}

spec fn tune_tail(low_cut: int, high_cut: int, freq: Seq<char>) -> Seq<char> {
    " low_cut="@ + (int_text(low_cut) + tune_tail_high(high_cut, freq))
}

spec fn tune_tail_high(high_cut: int, freq: Seq<char>) -> Seq<char> {
    " high_cut="@ + (int_text(high_cut) + tune_tail_freq(freq))
}

spec fn tune_tail_freq(freq: Seq<char>) -> Seq<char> {
    " freq="@ + freq
}

proof fn lemma_tune_command_parts(mode: Seq<char>, low_cut: int, high_cut: int, freq: Seq<char>)
    ensures
        tune_command(mode, low_cut, high_cut, freq) == "SET mod="@ + (mode + tune_tail(
            low_cut,
            high_cut,
            freq,
        )),
        tune_tail(low_cut, high_cut, freq).len() > 0 && tune_tail(low_cut, high_cut, freq)[0]
            == ' ',
        tune_tail_high(high_cut, freq).len() > 0 && tune_tail_high(high_cut, freq)[0] == ' ',
        tune_tail_freq(freq).len() > 0 && tune_tail_freq(freq)[0] == ' ',
{
    reveal_strlit(" low_cut=");
    reveal_strlit(" high_cut=");
    reveal_strlit(" freq=");
    let p1 = "SET mod="@ + mode;
    let p2 = p1 + " low_cut="@ + int_text(low_cut);
    let p3 = p2 + " high_cut="@ + int_text(high_cut);
    assert(tune_command(mode, low_cut, high_cut, freq) =~= p3 + tune_tail_freq(freq));
    assert(p3 + tune_tail_freq(freq) =~= p2 + tune_tail_high(high_cut, freq));
    assert(p2 + tune_tail_high(high_cut, freq) =~= p1 + tune_tail(low_cut, high_cut, freq));
    assert(p1 + tune_tail(low_cut, high_cut, freq) =~= "SET mod="@ + (mode + tune_tail(
        low_cut,
        high_cut,
        freq,
    )));
}

proof fn lemma_mode_is_word(station: Station)
    ensures
        is_word(station.mode()),
        station.mode() == "am"@ <==> station is AM,
        station.mode() == "fm"@ <==> station is FM,
        station.mode() == "lsb"@ <==> station is LSB,
        station.mode() == "usb"@ <==> station is USB,
{
    reveal_strlit("am");
    reveal_strlit("fm");
    reveal_strlit("lsb");
    reveal_strlit("usb");
    assert("am"@[0] != "fm"@[0]);
    assert("lsb"@[0] != "usb"@[0]);
    assert("am"@.len() != "lsb"@.len());
}

/// A receiver can tell any two stations apart: a command that tunes to both
/// of them has their mode, their edges and their frequency in common.
pub proof fn law_tuning_commands_differ(a: Station, b: Station)
    requires
        a.command() == b.command(),
    ensures
        a is AM <==> b is AM,
        a is FM <==> b is FM,
        a is LSB <==> b is LSB,
        a is USB <==> b is USB,
        a.low_edge() == b.low_edge(),
        a.high_edge() == b.high_edge(),
        a.frequency() == b.frequency(),
{
    let (la, ha, fa) = (a.low_edge(), a.high_edge(), a.frequency());
    let (lb, hb, fb) = (b.low_edge(), b.high_edge(), b.frequency());
    lemma_tune_command_parts(a.mode(), la, ha, fa);
    lemma_tune_command_parts(b.mode(), lb, hb, fb);
    lemma_mode_is_word(a);
    lemma_mode_is_word(b);
    lemma_int_text_is_word(la);
    lemma_int_text_is_word(lb);
    lemma_int_text_is_word(ha);
    lemma_int_text_is_word(hb);
    lemma_cut(
        "SET mod="@,
        a.mode() + tune_tail(la, ha, fa),
        "SET mod="@,
        b.mode() + tune_tail(lb, hb, fb),
    );
    lemma_cut_word(a.mode(), tune_tail(la, ha, fa), b.mode(), tune_tail(lb, hb, fb));
    lemma_cut(
        " low_cut="@,
        int_text(la) + tune_tail_high(ha, fa),
        " low_cut="@,
        int_text(lb) + tune_tail_high(hb, fb),
    );
    lemma_cut_word(int_text(la), tune_tail_high(ha, fa), int_text(lb), tune_tail_high(hb, fb));
    lemma_cut(
        " high_cut="@,
        int_text(ha) + tune_tail_freq(fa),
        " high_cut="@,
        int_text(hb) + tune_tail_freq(fb),
    );
    lemma_cut_word(int_text(ha), tune_tail_freq(fa), int_text(hb), tune_tail_freq(fb));
    lemma_cut(" freq="@, fa, " freq="@, fb);
    law_numerals_differ(la, lb);
    law_numerals_differ(ha, hb);
}

/// A receiver can tell any two gain control settings apart: different settings
/// make different commands.
pub proof fn law_agc_commands_differ(a: AgcModel, b: AgcModel)
    requires
        agc_command(a) == agc_command(b),
    ensures
        a == b,
{
    lemma_agc_command_parts(a);
    lemma_agc_command_parts(b);
    lemma_switch_text(a.agc);
    lemma_switch_text(b.agc);
    lemma_switch_text(a.hang);
    lemma_switch_text(b.hang);
    lemma_int_text_is_word(a.thresh as int);
    lemma_int_text_is_word(b.thresh as int);
    lemma_int_text_is_word(a.slope as int);
    lemma_int_text_is_word(b.slope as int);
    lemma_int_text_is_word(a.decay as int);
    lemma_int_text_is_word(b.decay as int);
    lemma_cut(
        "SET agc="@,
        switch_text(a.agc) + agc_tail0(a),
        "SET agc="@,
        switch_text(b.agc) + agc_tail0(b),
    );
    lemma_cut_word(switch_text(a.agc), agc_tail0(a), switch_text(b.agc), agc_tail0(b));
    lemma_cut(
        " hang="@,
        switch_text(a.hang) + agc_tail1(a),
        " hang="@,
        switch_text(b.hang) + agc_tail1(b),
    );
    lemma_cut_word(switch_text(a.hang), agc_tail1(a), switch_text(b.hang), agc_tail1(b));
    let (ta, tb) = (int_text(a.thresh as int), int_text(b.thresh as int));
    lemma_cut(" thresh="@, ta + agc_tail2(a), " thresh="@, tb + agc_tail2(b));
    lemma_cut_word(ta, agc_tail2(a), tb, agc_tail2(b));
    let (sa, sb) = (int_text(a.slope as int), int_text(b.slope as int));
    lemma_cut(" slope="@, sa + agc_tail3(a), " slope="@, sb + agc_tail3(b));
    lemma_cut_word(sa, agc_tail3(a), sb, agc_tail3(b));
    let (da, db) = (int_text(a.decay as int), int_text(b.decay as int));
    lemma_cut(" decay="@, da + agc_tail4(a), " decay="@, db + agc_tail4(b));
    lemma_cut_word(da, agc_tail4(a), db, agc_tail4(b));
    let (ma, mb) = (int_text(a.man_gain as int), int_text(b.man_gain as int));
    lemma_cut(" manGain="@, ma, " manGain="@, mb);
    law_numerals_differ(a.thresh as int, b.thresh as int);
    law_numerals_differ(a.slope as int, b.slope as int);
    law_numerals_differ(a.decay as int, b.decay as int);
    law_numerals_differ(a.man_gain as int, b.man_gain as int);
}

} // verus!
