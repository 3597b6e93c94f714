use vstd::prelude::*;
use vstd::string::*;

use crate::envelope::opt_view;
use crate::text::{
    after_first_colon, find_first_colon, first_colon, first_field, has_prefix, starts_with, take_chars,
    truncate_chars,
};

verus! {

/// Characters of a function ARN shown in a listing of rules or schedules.
pub const ARN_DISPLAY_CHARS: usize = 40;

/// Characters of a function ARN shown in a choice of functions.
pub const ARN_CHOICE_CHARS: usize = 50;

/// A static routing rule: events of `event_type` go to the function `lambda_arn`.
pub struct Rule {
    pub event_type: String,
    pub lambda_arn: String,
}

/// Credentials entered through the admin interface.
pub struct LocalCredentials {
    pub access_key: String,
    pub secret_key: String,
    pub region: String,
}

/// A scheduled event as the admin interface lists it.
pub struct Schedule {
    pub id: String,
    pub event_type: String,
    pub lambda_arn: String,
    pub cron: String,
    pub next_trigger: String,
}

/// What the rule listing page shows.
pub struct IndexTemplate {
    pub rules: Vec<Rule>,
    /// Each function's full ARN and its shortened form.
    pub lambda_arns: Vec<(String, String)>,
}

/// The credentials form, which shows nothing of the store.
pub struct CredentialsTemplate;

/// What the schedule listing page shows.
pub struct SchedulerTemplate {
    pub schedules: Vec<Schedule>,
    /// Each function's full ARN and its shortened form.
    pub lambda_arns: Vec<(String, String)>,
}

/// Keys of the store under `aws_` hold credentials, not rules.
pub open spec fn is_credential_key(key: Seq<char>) -> bool {
    starts_with(key, "aws_"@)
}

/// The rule listed for a store entry: none for a credential entry, else the
/// key as event type and the first characters of the value as ARN.
pub fn rule_from_entry(key: &str, value: &str) -> (r: Option<Rule>)
    ensures
        is_credential_key(key@) <==> r is None,
        r matches Some(rule) ==> rule.event_type@ == key@ && rule.lambda_arn@ == take_chars(
            value@,
            ARN_DISPLAY_CHARS as nat,
        ),
{
    if has_prefix(key, "aws_") {
        None
    } else {
        Some(Rule { event_type: String::from_str(key), lambda_arn: truncate_chars(value, ARN_DISPLAY_CHARS) })
    }
}

/// A function offered for choice: its full ARN and its shortened form.
pub fn lambda_choice(arn: String) -> (r: (String, String))
    ensures
        r.0@ == arn@,
        r.1@ == take_chars(arn@, ARN_CHOICE_CHARS as nat),
{
    let short = truncate_chars(arn.as_str(), ARN_CHOICE_CHARS);
    (arn, short)
}

pub open spec fn entries_view(entries: Seq<(String, String)>) -> Seq<(Seq<char>, Seq<char>)> {
    entries.map_values(|e: (String, String)| (e.0@, e.1@))
}

pub open spec fn rules_view(rules: Seq<Rule>) -> Seq<(Seq<char>, Seq<char>)> {
    rules.map_values(|r: Rule| (r.event_type@, r.lambda_arn@))
}

/// The rules listed for the store's entries (key and value), in store order:
/// credential entries are left out, ARNs are shortened.
pub open spec fn listed_rules(entries: Seq<(Seq<char>, Seq<char>)>) -> Seq<(Seq<char>, Seq<char>)>
    decreases entries.len(),
{
    if entries.len() == 0 {
        Seq::empty()
    } else {
        let prev = listed_rules(entries.drop_last());
        let e = entries.last();
        if is_credential_key(e.0) {
            prev
        } else {
            prev.push((e.0, take_chars(e.1, ARN_DISPLAY_CHARS as nat)))
        }
    }
}

/// The rules to list for the store's entries.
pub fn list_rules(entries: &Vec<(String, String)>) -> (r: Vec<Rule>)
    ensures
        rules_view(r@) == listed_rules(entries_view(entries@)),
{
    let ghost ev = entries_view(entries@);
    let mut out: Vec<Rule> = Vec::new();
    let mut i: usize = 0;
    while i < entries.len()
        invariant
            i <= entries@.len(),
            ev == entries_view(entries@),
            rules_view(out@) == listed_rules(ev.subrange(0, i as int)),
        decreases entries@.len() - i,
    {
        let ghost before = out@;
        let (k, v) = &entries[i];
        let rule = rule_from_entry(k.as_str(), v.as_str());
        proof {
            assert(ev.subrange(0, i + 1).drop_last() =~= ev.subrange(0, i as int));
        }
        match rule {
            Some(rule) => {
                out.push(rule);
                proof {
                    assert(rules_view(out@) =~= rules_view(before).push(rules_view(out@).last()));
                }
            },
            None => {},
        }
        i = i + 1;
    }
    proof {
        assert(ev.subrange(0, entries@.len() as int) =~= ev);
    }
    out
}

/// The text croner gives back for a cron pattern it accepts (its `Display`),
/// `None` for one it rejects.
pub uninterp spec fn cron_display(pattern: Seq<char>) -> Option<Seq<char>>;

/// Relies on croner's `Cron::from_str` and its `Display`: the parsed pattern's
/// text, or `None` where parsing fails (always so for an empty pattern).
#[verifier::external_body]
fn parse_cron(pattern: &str) -> (r: Option<String>)
    ensures
        opt_view(r) == cron_display(pattern@),
        pattern@.len() == 0 ==> r is None,
{
    <croner::Cron as std::str::FromStr>::from_str(pattern).ok().map(|c| c.to_string())
}

/// Why a store entry could not be listed as a schedule.
#[derive(PartialEq, Eq, Structural, Clone, Copy, Debug)]
pub enum ScheduleError {
    /// The entry's cron expression does not parse.
    InvalidCron,
}

/// Keys of the store under `schedule:` hold schedules.
pub open spec fn is_schedule_key(key: Seq<char>) -> bool {
    starts_with(key, "schedule:"@)
}

/// The cron field of a schedule value `arn:cron...`.
pub open spec fn cron_field(value: Seq<char>) -> Seq<char> {
    first_field(after_first_colon(value))
}

pub struct ScheduleView {
    pub id: Seq<char>,
    pub event_type: Seq<char>,
    pub lambda_arn: Seq<char>,
    pub cron: Seq<char>,
    pub next_trigger: Seq<char>,
}

impl View for Schedule {
    type V = ScheduleView;

    open spec fn view(&self) -> ScheduleView {
        ScheduleView {
            id: self.id@,
            event_type: self.event_type@,
            lambda_arn: self.lambda_arn@,
            cron: self.cron@,
            next_trigger: self.next_trigger@,
        }
    }
}

pub open spec fn schedule_result_view(r: Result<Option<Schedule>, ScheduleError>) -> Result<
    Option<ScheduleView>,
    ScheduleError,
> {
    match r {
        Ok(Some(s)) => Ok(Some(s@)),
        Ok(None) => Ok(None),
        Err(e) => Err(e),
    }
}

/// The schedule listed for a store entry. A key under `schedule:` whose value
/// holds a `':'` is one: the event type follows the prefix, the value's first
/// field is the ARN (shown shortened), its second the cron expression, whose
/// parsed text is shown as the next trigger. Other entries give `Ok(None)`; a
/// cron expression that does not parse is an error.
pub open spec fn entry_schedule(key: Seq<char>, value: Seq<char>) -> Result<
    Option<ScheduleView>,
    ScheduleError,
> {
    if !(is_schedule_key(key) && first_colon(value) < value.len()) {
        Ok(None)
    } else {
        match cron_display(cron_field(value)) {
            None => Err(ScheduleError::InvalidCron),
            Some(t) => Ok(
                Some(
                    ScheduleView {
                        id: "1"@,
                        event_type: key.subrange("schedule:"@.len() as int, key.len() as int),
                        lambda_arn: take_chars(first_field(value), ARN_DISPLAY_CHARS as nat),
                        cron: cron_field(value),
                        next_trigger: t,
                    },
                ),
            ),
        }
    }
}

/// The schedule listed for a store entry, as `entry_schedule` describes it.
pub fn schedule_from_entry(key: &str, value: &str) -> (r: Result<Option<Schedule>, ScheduleError>)
    ensures
        schedule_result_view(r) == entry_schedule(key@, value@),
{
    let prefix = "schedule:";
    if !has_prefix(key, prefix) {
        return Ok(None);
    }
    let n = value.unicode_len();
    let c = find_first_colon(value);
    if c >= n {
        return Ok(None);
    }
    let arn = value.substring_char(0, c);
    let rest = value.substring_char(c + 1, n);
    let c2 = find_first_colon(rest);
    let cron = rest.substring_char(0, c2);
    let next_trigger = match parse_cron(cron) {
        Some(t) => t,
        None => return Err(ScheduleError::InvalidCron),
    };
    let event_type = key.substring_char(prefix.unicode_len(), key.unicode_len());
    Ok(
        Some(
            Schedule {
                id: String::from_str("1"),
                event_type: String::from_str(event_type),
                lambda_arn: truncate_chars(arn, ARN_DISPLAY_CHARS),
                cron: String::from_str(cron),
                next_trigger,
            },
        ),
    )
}

/// The schedules listed for the store's entries, in store order; the first
/// entry whose cron expression does not parse makes the listing fail.
pub open spec fn listed_schedules(entries: Seq<(Seq<char>, Seq<char>)>) -> Result<
    Seq<ScheduleView>,
    ScheduleError,
>
    decreases entries.len(),
{
    if entries.len() == 0 {
        Ok(Seq::empty())
    } else {
        match listed_schedules(entries.drop_last()) {
            Err(e) => Err(e),
            Ok(prev) => match entry_schedule(entries.last().0, entries.last().1) {
                Err(e) => Err(e),
                Ok(None) => Ok(prev),
                Ok(Some(s)) => Ok(prev.push(s)),
            },
        }
    }
}

proof fn lemma_listing_error_stays(entries: Seq<(Seq<char>, Seq<char>)>, k: int, e: ScheduleError)
    requires
        0 <= k <= entries.len(),
        listed_schedules(entries.subrange(0, k)) == Err::<Seq<ScheduleView>, ScheduleError>(e),
    ensures
        listed_schedules(entries) == Err::<Seq<ScheduleView>, ScheduleError>(e),
    decreases entries.len() - k,
{
    if k < entries.len() {
        assert(entries.subrange(0, k + 1).drop_last() =~= entries.subrange(0, k));
        lemma_listing_error_stays(entries, k + 1, e);
    } else {
        assert(entries.subrange(0, k) =~= entries);
    }
}

/// The schedules to list for the store's entries.
pub fn list_schedules(entries: &Vec<(String, String)>) -> (r: Result<Vec<Schedule>, ScheduleError>)
    ensures
        match r {
            Ok(v) => listed_schedules(entries_view(entries@)) == Ok::<Seq<ScheduleView>, ScheduleError>(
                v@.map_values(|s: Schedule| s@),
            ),
            Err(e) => listed_schedules(entries_view(entries@)) == Err::<Seq<ScheduleView>, ScheduleError>(e),
        },
{
    let ghost ev = entries_view(entries@);
    let mut out: Vec<Schedule> = Vec::new();
    let mut i: usize = 0;
    proof {
        assert(out@.map_values(|s: Schedule| s@) =~= Seq::<ScheduleView>::empty());
    }
    while i < entries.len()
        invariant
            i <= entries@.len(),
            ev == entries_view(entries@),
            listed_schedules(ev.subrange(0, i as int)) == Ok::<Seq<ScheduleView>, ScheduleError>(
                out@.map_values(|s: Schedule| s@),
            ),
        decreases entries@.len() - i,
    {
        let ghost before = out@;
        let (k, v) = &entries[i];
        let entry = schedule_from_entry(k.as_str(), v.as_str());
        proof {
            assert(ev.subrange(0, i + 1).drop_last() =~= ev.subrange(0, i as int));
        }
        match entry {
            Err(e) => {
                proof {
                    lemma_listing_error_stays(ev, i + 1, e);
                }
                return Err(e);
            },
            Ok(None) => {},
            Ok(Some(s)) => {
                out.push(s);
                proof {
                    assert(out@.map_values(|s: Schedule| s@) =~= before.map_values(|s: Schedule| s@).push(
                        out@.last()@,
                    ));
                }
            },
        }
        i = i + 1;
    }
    proof {
        assert(ev.subrange(0, entries@.len() as int) =~= ev);
    }
    Ok(out)
}

} // verus!
