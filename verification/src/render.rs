//! The text content of one rendered game: the score line, the status
//! label, and the records line, composed exactly as the dashboard shows
//! them. Painting (boxes, colors, alignment) stays with the caller.

use vstd::prelude::*;
use vstd::string::*;
use crate::model::{Competition, Competitor, GameEvent, Sport};
use crate::status::{format_label, spec_status_label};
use crate::text::seq_views;

verus! {

/// The score line: away abbreviation and score, then home score and
/// abbreviation.
pub open spec fn spec_score_line(away: Competitor, home: Competitor) -> Seq<char> {
    away.team.abbreviation@ + " "@ + away.score@ + " - "@ + home.score@ + " "@
        + home.team.abbreviation@
}

/// The score line for the away and home competitors.
pub fn score_line(away: &Competitor, home: &Competitor) -> (r: String)
    ensures
        r@ == spec_score_line(*away, *home),
{
    let mut s = away.team.abbreviation.clone();
    s.append(" ");
    s.append(away.score.as_str());
    s.append(" - ");
    s.append(home.score.as_str());
    s.append(" ");
    s.append(home.team.abbreviation.as_str());
    s
}

/// The first record summary of a competitor, empty when it has none.
pub open spec fn spec_first_record(c: Competitor) -> Seq<char> {
    if c.records@.len() > 0 {
        c.records@[0].summary@
    } else {
        Seq::empty()
    }
}

/// The records line, when there is one: at least one side has a record
/// entry and at least one summary is nonempty.
pub open spec fn spec_records_line(away: Competitor, home: Competitor) -> Option<Seq<char>> {
    if away.records@.len() == 0 && home.records@.len() == 0 {
        None
    } else if spec_first_record(away).len() == 0 && spec_first_record(home).len() == 0 {
        None
    } else {
        Some(
            "("@ + spec_first_record(away) + ") vs ("@ + spec_first_record(home) + ")"@,
        )
    }
}

/// The records line for the away and home competitors, if any.
pub fn records_line(away: &Competitor, home: &Competitor) -> (r: Option<String>)
    ensures
        match r {
            Some(s) => spec_records_line(*away, *home) == Some(s@),
            None => spec_records_line(*away, *home) is None,
        },
{
    if away.records.len() == 0 && home.records.len() == 0 {
        return None;
    }
    proof {
        reveal_strlit("");
        assert(""@ =~= Seq::<char>::empty());
    }
    let away_rec: &str = if away.records.len() > 0 {
        away.records[0].summary.as_str()
    } else {
        ""
    };
    let home_rec: &str = if home.records.len() > 0 {
        home.records[0].summary.as_str()
    } else {
        ""
    };
    if away_rec.unicode_len() == 0 && home_rec.unicode_len() == 0 {
        return None;
    }
    let mut s = String::from_str("(");
    s.append(away_rec);
    s.append(") vs (");
    s.append(home_rec);
    s.append(")");
    Some(s)
}

/// The text lines one competition contributes: the score line; the status
/// label and a spacer when the label is nonempty; the records line when
/// there is one. A competition with fewer than two competitors shows
/// nothing.
pub open spec fn spec_competition_lines(sport: Sport, comp: Competition) -> Seq<Seq<char>> {
    if comp.competitors@.len() >= 2 {
        let away = comp.competitors@[0];
        let home = comp.competitors@[1];
        let label = spec_status_label(sport, comp.status);
        let score = seq![spec_score_line(away, home)];
        let with_status = if label.len() > 0 {
            score + seq![label, Seq::<char>::empty()]
        } else {
            score
        };
        match spec_records_line(away, home) {
            Some(line) => with_status + seq![line],
            None => with_status,
        }
    } else {
        Seq::empty()
    }
}

/// The text lines of a whole game: its competitions' lines in order,
/// starting from position `i`.
pub open spec fn spec_game_lines_from(sport: Sport, game: GameEvent, i: int) -> Seq<Seq<char>>
    decreases game.competitions@.len() - i,
{
    if 0 <= i < game.competitions@.len() {
        spec_competition_lines(sport, game.competitions@[i]) + spec_game_lines_from(
            sport,
            game,
            i + 1,
        )
    } else {
        Seq::empty()
    }
}

/// The text lines of a whole game.
pub open spec fn spec_game_lines(sport: Sport, game: GameEvent) -> Seq<Seq<char>> {
    spec_game_lines_from(sport, game, 0)
}

fn competition_lines(sport: Sport, comp: &Competition) -> (r: Vec<String>)
    ensures
        seq_views(r@) == spec_competition_lines(sport, *comp),
{
    let mut out: Vec<String> = Vec::new();
    if comp.competitors.len() >= 2 {
        let away = &comp.competitors[0];
        let home = &comp.competitors[1];
        out.push(score_line(away, home));
        let label = format_label(sport, &comp.status);
        if label.as_str().unicode_len() > 0 {
            out.push(label);
            out.push(String::from_str(""));
            proof {
                reveal_strlit("");
                assert(""@ =~= Seq::<char>::empty());
            }
        }
        match records_line(away, home) {
            Some(line) => {
                out.push(line);
            },
            None => {},
        }
    }
    proof {
        assert(seq_views(out@) =~= spec_competition_lines(sport, *comp));
    }
    out
}

/// The text lines of a whole game, competitions in order.
pub fn game_lines(sport: Sport, game: &GameEvent) -> (r: Vec<String>)
    ensures
        seq_views(r@) == spec_game_lines(sport, *game),
{
    let mut out: Vec<String> = Vec::new();
    let mut i: usize = 0;
    proof {
        assert(seq_views(out@) =~= Seq::<Seq<char>>::empty());
    }
    while i < game.competitions.len()
        invariant
            i <= game.competitions@.len(),
            seq_views(out@) + spec_game_lines_from(sport, *game, i as int) == spec_game_lines(
                sport,
                *game,
            ),
        decreases game.competitions@.len() - i,
    {
        let mut lines = competition_lines(sport, &game.competitions[i]);
        let ghost prev = out@;
        let ghost added = lines@;
        let mut j: usize = 0;
        while j < lines.len()
            invariant
                j <= lines@.len(),
                lines@ == added,
                out@ == prev + added.take(j as int),
            decreases lines@.len() - j,
        {
            let line = lines[j].clone();
            proof {
                assert(line@ == added[j as int]@);
            }
            out.push(line);
            proof {
                assert(out@ =~= prev + added.take(j as int + 1));
            }
            j += 1;
        }
        proof {
            assert(added.take(added.len() as int) =~= added);
            assert(out@ == prev + added);
            assert(seq_views(out@) =~= seq_views(prev) + seq_views(added));
            assert(seq_views(prev) + (seq_views(added) + spec_game_lines_from(
                sport,
                *game,
                i as int + 1,
            )) =~= (seq_views(prev) + seq_views(added)) + spec_game_lines_from(
                sport,
                *game,
                i as int + 1,
            ));
        }
        i += 1;
    }
    proof {
        assert(seq_views(out@) + Seq::<Seq<char>>::empty() =~= seq_views(out@));
    }
    out
}

/// For a visible slice of `count` games drawn in two columns, the slice
/// positions of the left column (even positions) and the right column (odd
/// positions), each in reading order.
pub fn column_positions(count: usize) -> (r: (Vec<usize>, Vec<usize>))
    ensures
        r.0@.len() == (count + 1) / 2,
        r.1@.len() == count / 2,
        forall|k: int| 0 <= k < r.0@.len() ==> r.0@[k] == 2 * k,
        forall|k: int| 0 <= k < r.1@.len() ==> r.1@[k] == 2 * k + 1,
{
    let mut left: Vec<usize> = Vec::new();
    let mut right: Vec<usize> = Vec::new();
    let mut i: usize = 0;
    while i < count
        invariant
            i <= count,
            left@.len() == (i + 1) / 2,
            right@.len() == i / 2,
            forall|k: int| 0 <= k < left@.len() ==> left@[k] == 2 * k,
            forall|k: int| 0 <= k < right@.len() ==> right@[k] == 2 * k + 1,
        decreases count - i,
    {
        if i % 2 == 0 {
            left.push(i);
        } else {
            right.push(i);
        }
        i += 1;
    }
    (left, right)
}

} // verus!
