use vstd::prelude::*;

use crate::text::{
    all_digits, char_index, dec, digit_char, digits_value, i64_chars, is_ascii_digit,
    lemma_char_index, lemma_pad2_reads_back, pad2, pad2_chars, push_chars, string_of,
};

verus! {

#[derive(Debug, Clone)]
pub struct Season {
    pub season_number: i32,
    pub monitored: bool,
}

/// `S{season:02}E{episode:02}`.
pub open spec fn episode_code_spec(season: i32, episode: i32) -> Seq<char> {
    seq!['S'] + pad2(season as int) + seq!['E'] + pad2(episode as int)
}

/// Episode code such as `S02E03`, as shown in lists and calendars.
pub fn episode_code(season: i32, episode: i32) -> (code: String)
    ensures
        code@ == episode_code_spec(season, episode),
{
    let mut out: Vec<char> = Vec::new();
    out.push('S');
    let s = pad2_chars(season as i64);
    push_chars(&mut out, &s);
    out.push('E');
    let e = pad2_chars(episode as i64);
    push_chars(&mut out, &e);
    assert(out@ =~= episode_code_spec(season, episode));
    string_of(&out)
}

/// Reading a code back gives the episode it names: after the `S` come at
/// least two digits whose value is the season, then the first `E`, then at
/// least two digits whose value is the episode.
pub proof fn lemma_episode_code_reads_back(season: i32, episode: i32)
    requires
        season >= 0,
        episode >= 0,
    ensures
        ({
            let c = episode_code_spec(season, episode);
            let k = char_index(c, 'E') as int;
            &&& c[0] == 'S'
            &&& 3 <= k && k + 3 <= c.len()
            &&& all_digits(c.subrange(1, k))
            &&& digits_value(c.subrange(1, k)) == season
            &&& all_digits(c.skip(k + 1))
            &&& digits_value(c.skip(k + 1)) == episode
        }),
{
    let p = pad2(season as int);
    let q = pad2(episode as int);
    lemma_pad2_reads_back(season as int);
    lemma_pad2_reads_back(episode as int);
    let c = episode_code_spec(season, episode);
    let k = p.len() as int + 1;
    assert forall|i: int| 0 <= i < k implies #[trigger] c[i] != 'E' by {
        if i > 0 {
            assert(c[i] == p[i - 1]);
            assert(is_ascii_digit(p[i - 1]));
        }
    }
    assert(c[k] == 'E');
    lemma_char_index(c, 'E', k);
    assert(c.subrange(1, k) =~= p);
    assert(c.skip(k + 1) =~= q);
}

/// For seasons and episodes below 100 the code is exactly six characters:
/// `S`, the season's tens and units digits, `E`, the episode's tens and
/// units digits (season 2 episode 3 reads `S02E03`).
pub proof fn lemma_episode_code_digits(season: i32, episode: i32)
    requires
        0 <= season < 100,
        0 <= episode < 100,
    ensures
        episode_code_spec(season, episode) == seq![
            'S',
            digit_char((season / 10) as nat),
            digit_char((season % 10) as nat),
            'E',
            digit_char((episode / 10) as nat),
            digit_char((episode % 10) as nat),
        ],
{
    let p = pad2(season as int);
    let q = pad2(episode as int);
    if season >= 10 {
        assert(dec((season / 10) as nat) =~= seq![digit_char((season / 10) as nat)]);
        assert(p =~= seq![digit_char((season / 10) as nat), digit_char((season % 10) as nat)]);
    } else {
        assert(p =~= seq![digit_char(0), digit_char(season as nat)]);
    }
    if episode >= 10 {
        assert(dec((episode / 10) as nat) =~= seq![digit_char((episode / 10) as nat)]);
        assert(q =~= seq![digit_char((episode / 10) as nat), digit_char((episode % 10) as nat)]);
    } else {
        assert(q =~= seq![digit_char(0), digit_char(episode as nat)]);
    }
    assert(episode_code_spec(season, episode) =~= seq![
        'S',
        digit_char((season / 10) as nat),
        digit_char((season % 10) as nat),
        'E',
        digit_char((episode / 10) as nat),
        digit_char((episode % 10) as nat),
    ]);
}

} // verus!
