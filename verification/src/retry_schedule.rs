//! Retry schedules of the process tracker: when the next attempt of a task
//! is due, from a mapping of retry counts to delays.
use vstd::prelude::*;

verus! {

/// One schedule: the first retry comes `start_after` seconds after the task
/// was created; then `count[i]` retries are spaced `frequency[i]` seconds
/// apart, bucket after bucket (the two lists are read pairwise, up to the
/// shorter one).
pub struct RetryMapping {
    pub start_after: i32,
    pub frequency: Vec<i32>,
    pub count: Vec<i32>,
}

/// Payment method of a task, the key of payment-method specific schedules.
#[derive(Clone, Copy, Debug, PartialEq, Eq, Hash, Structural)]
pub enum PaymentMethod {
    Card,
    CardRedirect,
    PayLater,
    Wallet,
    BankRedirect,
    BankTransfer,
    Crypto,
    BankDebit,
    Reward,
    Upi,
    Voucher,
    GiftCard,
}

impl View for PaymentMethod {
    type V = PaymentMethod;

    open spec fn view(&self) -> PaymentMethod {
        *self
    }
}

/// Schedules of a connector: one per merchant that has its own, and a default.
/// Each merchant name maps to the last entry that carries it, as when the
/// entries are inserted into a map in order.
pub struct ConnectorPTMapping {
    pub default_mapping: RetryMapping,
    pub custom_merchant_mapping: Vec<(String, RetryMapping)>,
    pub max_retries_count: i32,
}

/// Schedules per payment method, and a default; later entries override earlier ones.
pub struct PaymentMethodsPTMapping {
    pub default_mapping: RetryMapping,
    pub custom_pm_mapping: Vec<(PaymentMethod, RetryMapping)>,
    pub max_retries_count: i32,
}

/// The map that a list of entries stands for: each key maps to the value
/// of its last entry.
pub open spec fn keyed_view<K: View, V>(entries: Seq<(K, V)>) -> Map<K::V, V>
    decreases entries.len(),
{
    if entries.len() == 0 {
        Map::empty()
    } else {
        keyed_view(entries.drop_last()).insert(entries.last().0@, entries.last().1)
    }
}

/// Index of the last entry whose key is `key`.
pub open spec fn last_key_index<K: View, V>(entries: Seq<(K, V)>, key: K::V) -> Option<int>
    decreases entries.len(),
{
    if entries.len() == 0 {
        None
    } else if entries.last().0@ == key {
        Some(entries.len() - 1)
    } else {
        last_key_index(entries.drop_last(), key)
    }
}

/// A key's value in the view of a list of entries is the value of its
/// last entry; a key without an entry has none.
pub proof fn lemma_last_entry_wins<K: View, V>(entries: Seq<(K, V)>, key: K::V)
    ensures
        match last_key_index(entries, key) {
            Some(i) => 0 <= i < entries.len() && entries[i].0@ == key
                && keyed_view(entries).contains_key(key)
                && keyed_view(entries)[key] == entries[i].1
                && forall|j: int| i < j < entries.len() ==> entries[j].0@ != key,
            None => !keyed_view(entries).contains_key(key)
                && forall|j: int| 0 <= j < entries.len() ==> entries[j].0@ != key,
        },
    decreases entries.len(),
{
    if entries.len() > 0 {
        let init = entries.drop_last();
        lemma_last_entry_wins(init, key);
        assert(forall|j: int| 0 <= j < init.len() ==> init[j] == entries[j]);
        if entries.last().0@ != key {
            assert forall|j: int| 0 <= j < entries.len() && entries[j].0@ == key implies
                j < init.len() by {}
        }
    }
}

/// The value of `key` in the view of `entries`, or `default`.
pub open spec fn lookup_or<K: View, V>(entries: Seq<(K, V)>, key: K::V, default: V) -> V {
    if keyed_view(entries).contains_key(key) {
        keyed_view(entries)[key]
    } else {
        default
    }
}

/// Sum of the first `k` counts.
pub open spec fn count_prefix(counts: Seq<i32>, k: int) -> int
    decreases k,
{
    if k <= 0 || counts.len() == 0 {
        0
    } else {
        count_prefix(counts, k - 1) + counts[k - 1]
    }
}

/// Number of (count, frequency) pairs that a schedule holds.
pub open spec fn pair_len(counts: Seq<i32>, freqs: Seq<i32>) -> int {
    if counts.len() <= freqs.len() { counts.len() as int } else { freqs.len() as int }
}

/// The delay for a retry, walking the buckets from index `i` on: each
/// bucket takes away its count from the retry number, and the first bucket
/// that leaves nothing (or less) over gives the delay.
pub open spec fn delay_from(retry: int, counts: Seq<i32>, freqs: Seq<i32>, i: nat) -> Option<i32>
    decreases pair_len(counts, freqs) - i,
{
    if i < pair_len(counts, freqs) {
        let rest = retry - counts[i as int];
        if rest <= 0 {
            Some(freqs[i as int])
        } else {
            delay_from(rest, counts, freqs, i + 1)
        }
    } else {
        None
    }
}

/// Every subtraction of the walk in `delay_from` stays within `i32`.
pub open spec fn delay_fits(retry: int, counts: Seq<i32>, freqs: Seq<i32>, i: nat) -> bool
    decreases pair_len(counts, freqs) - i,
{
    if i < pair_len(counts, freqs) {
        let rest = retry - counts[i as int];
        &&& i32::MIN <= rest <= i32::MAX
        &&& (rest <= 0 || delay_fits(rest, counts, freqs, i + 1))
    } else {
        true
    }
}

/// The delay for the given retry number under a schedule.
pub open spec fn delay_spec(retry: int, counts: Seq<i32>, freqs: Seq<i32>) -> Option<i32> {
    delay_from(retry, counts, freqs, 0)
}

/// The delay of the next attempt under one schedule: `start_after` for the
/// first retry (`retry == 0`), else the bucketed delay.
pub open spec fn schedule_time_spec(mapping: RetryMapping, retry: int) -> Option<i32> {
    if retry == 0 {
        Some(mapping.start_after)
    } else {
        delay_spec(retry, mapping.count@, mapping.frequency@)
    }
}

/// `get_schedule_time` computes without overflow for this mapping and retry number.
pub open spec fn schedule_fits(mapping: RetryMapping, retry: int) -> bool {
    retry != 0 ==> delay_fits(retry, mapping.count@, mapping.frequency@, 0)
}

/// The schedule that applies to a merchant.
pub open spec fn merchant_mapping(mapping: ConnectorPTMapping, merchant_name: Seq<char>) -> RetryMapping {
    lookup_or(mapping.custom_merchant_mapping@, merchant_name, mapping.default_mapping)
}

/// The schedule that applies to a payment method.
pub open spec fn pm_mapping(mapping: PaymentMethodsPTMapping, pm: PaymentMethod) -> RetryMapping {
    lookup_or(mapping.custom_pm_mapping@, pm, mapping.default_mapping)
}

/// Every bucket count of the schedule is non-negative.
pub open spec fn counts_nonnegative(counts: Seq<i32>, freqs: Seq<i32>) -> bool {
    forall|j: int| 0 <= j < pair_len(counts, freqs) ==> counts[j] >= 0
}

proof fn lemma_prefix_monotone(counts: Seq<i32>, freqs: Seq<i32>, i: int, k: int)
    requires
        counts_nonnegative(counts, freqs),
        0 <= i <= k <= pair_len(counts, freqs),
    ensures
        count_prefix(counts, i) <= count_prefix(counts, k),
    decreases k - i,
{
    if i < k {
        lemma_prefix_monotone(counts, freqs, i, k - 1);
    }
}

proof fn lemma_walk_bucket(retry: int, counts: Seq<i32>, freqs: Seq<i32>, i: nat, k: nat)
    requires
        counts_nonnegative(counts, freqs),
        i <= k < pair_len(counts, freqs),
        count_prefix(counts, k as int) < retry <= count_prefix(counts, (k + 1) as int),
    ensures
        delay_from(retry - count_prefix(counts, i as int), counts, freqs, i) == Some(freqs[k as int]),
    decreases k - i,
{
    if i < k {
        lemma_prefix_monotone(counts, freqs, (i + 1) as int, k as int);
        lemma_walk_bucket(retry, counts, freqs, i + 1, k);
    }
}

proof fn lemma_walk_exhausted(retry: int, counts: Seq<i32>, freqs: Seq<i32>, i: nat)
    requires
        counts_nonnegative(counts, freqs),
        i <= pair_len(counts, freqs),
        retry > count_prefix(counts, pair_len(counts, freqs)),
    ensures
        delay_from(retry - count_prefix(counts, i as int), counts, freqs, i) is None,
    decreases pair_len(counts, freqs) - i,
{
    if i < pair_len(counts, freqs) {
        lemma_prefix_monotone(counts, freqs, (i + 1) as int, pair_len(counts, freqs));
        lemma_walk_exhausted(retry, counts, freqs, i + 1);
    }
}

proof fn lemma_walk_fits(retry: int, counts: Seq<i32>, freqs: Seq<i32>, i: nat)
    requires
        counts_nonnegative(counts, freqs),
        i <= pair_len(counts, freqs),
        1 <= retry - count_prefix(counts, i as int) <= i32::MAX,
    ensures
        delay_fits(retry - count_prefix(counts, i as int), counts, freqs, i),
    decreases pair_len(counts, freqs) - i,
{
    if i < pair_len(counts, freqs) {
        lemma_walk_fits_step(retry, counts, freqs, i);
    }
}

proof fn lemma_walk_fits_step(retry: int, counts: Seq<i32>, freqs: Seq<i32>, i: nat)
    requires
        counts_nonnegative(counts, freqs),
        i < pair_len(counts, freqs),
        1 <= retry - count_prefix(counts, i as int) <= i32::MAX,
    ensures
        delay_fits(retry - count_prefix(counts, i as int), counts, freqs, i),
    decreases pair_len(counts, freqs) - i, 0nat,
{
    if retry - count_prefix(counts, (i + 1) as int) > 0 {
        lemma_walk_fits(retry, counts, freqs, i + 1);
    }
}

/// Retry `retry` (from 1 on) of a schedule with non-negative counts falls
/// into the bucket whose running total of counts first reaches it: it
/// waits that bucket's frequency.
pub proof fn lemma_retry_falls_into_its_bucket(retry: int, counts: Seq<i32>, freqs: Seq<i32>, k: nat)
    requires
        counts_nonnegative(counts, freqs),
        k < pair_len(counts, freqs),
        count_prefix(counts, k as int) < retry <= count_prefix(counts, (k + 1) as int),
    ensures
        delay_spec(retry, counts, freqs) == Some(freqs[k as int]),
{
    lemma_walk_bucket(retry, counts, freqs, 0, k);
}

/// A retry beyond the total count of all buckets gets no delay: the task
/// is not retried again.
pub proof fn lemma_retries_exhausted(retry: int, counts: Seq<i32>, freqs: Seq<i32>)
    requires
        counts_nonnegative(counts, freqs),
        retry > count_prefix(counts, pair_len(counts, freqs)),
    ensures
        delay_spec(retry, counts, freqs) is None,
{
    lemma_walk_exhausted(retry, counts, freqs, 0);
}

/// With non-negative counts, the walk for any positive retry number stays
/// within `i32`, so `get_delay` accepts it.
pub proof fn lemma_positive_retry_fits(retry: int, counts: Seq<i32>, freqs: Seq<i32>)
    requires
        counts_nonnegative(counts, freqs),
        1 <= retry <= i32::MAX,
    ensures
        delay_fits(retry, counts, freqs, 0),
{
    lemma_walk_fits(retry, counts, freqs, 0);
}

/// Once a schedule is exhausted it stays exhausted: if retry `retry` gets
/// no delay, no later retry does.
pub proof fn lemma_exhaustion_is_final(retry: int, later: int, counts: Seq<i32>, freqs: Seq<i32>)
    requires
        counts_nonnegative(counts, freqs),
        1 <= retry <= later,
        delay_spec(retry, counts, freqs) is None,
    ensures
        delay_spec(later, counts, freqs) is None,
{
    let n = pair_len(counts, freqs);
    if retry <= count_prefix(counts, n) {
        let k = first_bucket(retry, counts, freqs, 0);
        lemma_retry_falls_into_its_bucket(retry, counts, freqs, k);
    } else {
        lemma_retries_exhausted(later, counts, freqs);
    }
}

/// The first bucket, from `i` on, whose running total reaches `retry`.
proof fn first_bucket(retry: int, counts: Seq<i32>, freqs: Seq<i32>, i: nat) -> (k: nat)
    requires
        counts_nonnegative(counts, freqs),
        i < pair_len(counts, freqs) || i == pair_len(counts, freqs),
        count_prefix(counts, i as int) < retry <= count_prefix(counts, pair_len(counts, freqs)),
    ensures
        i <= k < pair_len(counts, freqs),
        count_prefix(counts, k as int) < retry <= count_prefix(counts, (k + 1) as int),
    decreases pair_len(counts, freqs) - i,
{
    if retry <= count_prefix(counts, (i + 1) as int) {
        i
    } else {
        first_bucket(retry, counts, freqs, i + 1)
    }
}

/// The delay that the schedule gives to retry number `retry_count` (not the
/// first): walks the (count, frequency) pairs, taking each bucket's count
/// from the retry number until it is used up.
pub fn get_delay(retry_count: i32, count: &Vec<i32>, frequency: &Vec<i32>) -> (delay: Option<i32>)
    requires
        delay_fits(retry_count as int, count@, frequency@, 0),
    ensures
        delay == delay_spec(retry_count as int, count@, frequency@),
{
    let len: usize = if count.len() <= frequency.len() { count.len() } else { frequency.len() };
    let mut retry: i32 = retry_count;
    let mut i: usize = 0;
    while i < len
        invariant
            len == pair_len(count@, frequency@),
            i <= len,
            delay_fits(retry as int, count@, frequency@, i as nat),
            delay_from(retry as int, count@, frequency@, i as nat)
                == delay_from(retry_count as int, count@, frequency@, 0),
        decreases len - i,
    {
        let rest: i32 = retry - count[i];
        if rest <= 0 {
            return Some(frequency[i]);
        }
        retry = rest;
        i = i + 1;
    }
    None
}

fn schedule_time_for(mapping: &RetryMapping, retry_count: i32) -> (delay: Option<i32>)
    requires
        schedule_fits(*mapping, retry_count as int),
    ensures
        delay == schedule_time_spec(*mapping, retry_count as int),
{
    if retry_count == 0 {
        Some(mapping.start_after)
    } else {
        get_delay(retry_count, &mapping.count, &mapping.frequency)
    }
}

fn find_merchant(entries: &Vec<(String, RetryMapping)>, key: &String) -> (idx: Option<usize>)
    ensures
        match idx {
            Some(i) => last_key_index(entries@, key@) == Some(i as int),
            None => last_key_index(entries@, key@) is None,
        },
{
    let mut found: Option<usize> = None;
    let mut i: usize = 0;
    while i < entries.len()
        invariant
            i <= entries.len(),
            match found {
                Some(j) => last_key_index(entries@.take(i as int), key@) == Some(j as int),
                None => last_key_index(entries@.take(i as int), key@) is None,
            },
        decreases entries.len() - i,
    {
        assert(entries@.take(i + 1).drop_last() =~= entries@.take(i as int));
        if entries[i].0 == *key {
            found = Some(i);
        }
        i = i + 1;
    }
    assert(entries@.take(entries.len() as int) =~= entries@);
    found
}

fn find_payment_method(entries: &Vec<(PaymentMethod, RetryMapping)>, key: PaymentMethod) -> (idx: Option<usize>)
    ensures
        match idx {
            Some(i) => last_key_index(entries@, key) == Some(i as int),
            None => last_key_index(entries@, key) is None,
        },
{
    let mut found: Option<usize> = None;
    let mut i: usize = 0;
    while i < entries.len()
        invariant
            i <= entries.len(),
            match found {
                Some(j) => last_key_index(entries@.take(i as int), key) == Some(j as int),
                None => last_key_index(entries@.take(i as int), key) is None,
            },
        decreases entries.len() - i,
    {
        assert(entries@.take(i + 1).drop_last() =~= entries@.take(i as int));
        if entries[i].0 == key {
            found = Some(i);
        }
        i = i + 1;
    }
    assert(entries@.take(entries.len() as int) =~= entries@);
    found
}

/// The delay, in seconds, before attempt `retry_count` of a task of the
/// merchant `merchant_name`: the merchant's own schedule where it has one,
/// else the default; retry 0 waits `start_after`.
pub fn get_schedule_time(mapping: ConnectorPTMapping, merchant_name: &str, retry_count: i32) -> (delay: Option<i32>)
    requires
        schedule_fits(merchant_mapping(mapping, merchant_name@), retry_count as int),
    ensures
        delay == schedule_time_spec(merchant_mapping(mapping, merchant_name@), retry_count as int),
{
    let name = String::from_str(merchant_name);
    let idx = find_merchant(&mapping.custom_merchant_mapping, &name);
    proof {
        lemma_last_entry_wins(mapping.custom_merchant_mapping@, name@);
    }
    match idx {
        Some(i) => schedule_time_for(&mapping.custom_merchant_mapping[i].1, retry_count),
        None => schedule_time_for(&mapping.default_mapping, retry_count),
    }
}

/// The delay, in seconds, before attempt `retry_count` of a task paid with
/// `pm`: the payment method's own schedule where it has one, else the default.
pub fn get_pm_schedule_time(mapping: PaymentMethodsPTMapping, pm: &PaymentMethod, retry_count: i32) -> (delay: Option<i32>)
    requires
        schedule_fits(pm_mapping(mapping, *pm), retry_count as int),
    ensures
        delay == schedule_time_spec(pm_mapping(mapping, *pm), retry_count as int),
{
    let idx = find_payment_method(&mapping.custom_pm_mapping, *pm);
    proof {
        lemma_last_entry_wins(mapping.custom_pm_mapping@, *pm);
    }
    match idx {
        Some(i) => schedule_time_for(&mapping.custom_pm_mapping[i].1, retry_count),
        None => schedule_time_for(&mapping.default_mapping, retry_count),
    }
}

/// Two schedules with the same start and the same buckets.
pub open spec fn same_schedule(a: RetryMapping, b: RetryMapping) -> bool {
    &&& a.start_after == b.start_after
    &&& a.count@ == b.count@
    &&& a.frequency@ == b.frequency@
}

/// The merchant schedule and the payment-method schedule compute alike:
/// where the schedule selected for a merchant and the one selected for a
/// payment method are the same, `get_schedule_time` and
/// `get_pm_schedule_time` accept the same retry numbers and give the same
/// delay for each.
pub proof fn lemma_schedule_functions_agree(
    connector: ConnectorPTMapping,
    merchant_name: Seq<char>,
    methods: PaymentMethodsPTMapping,
    pm: PaymentMethod,
    retry: int,
)
    requires
        same_schedule(merchant_mapping(connector, merchant_name), pm_mapping(methods, pm)),
    ensures
        schedule_fits(merchant_mapping(connector, merchant_name), retry)
            == schedule_fits(pm_mapping(methods, pm), retry),
        schedule_time_spec(merchant_mapping(connector, merchant_name), retry)
            == schedule_time_spec(pm_mapping(methods, pm), retry),
{
}

/// Whether `get_delay` accepts this retry number for these buckets: every
/// subtraction of its walk stays within `i32`.
pub fn delay_fits_check(retry_count: i32, count: &Vec<i32>, frequency: &Vec<i32>) -> (fits: bool)
    ensures
        fits == delay_fits(retry_count as int, count@, frequency@, 0),
{
    let len: usize = if count.len() <= frequency.len() { count.len() } else { frequency.len() };
    let mut retry: i64 = retry_count as i64;
    let mut i: usize = 0;
    while i < len
        invariant
            len == pair_len(count@, frequency@),
            i <= len,
            i32::MIN <= retry <= i32::MAX,
            delay_fits(retry as int, count@, frequency@, i as nat)
                == delay_fits(retry_count as int, count@, frequency@, 0),
        decreases len - i,
    {
        let rest: i64 = retry - count[i] as i64;
        if rest < i32::MIN as i64 || rest > i32::MAX as i64 {
            return false;
        }
        if rest <= 0 {
            return true;
        }
        retry = rest;
        i = i + 1;
    }
    true
}

/// Whether `get_schedule_time` and `get_pm_schedule_time` accept this retry
/// number for this schedule.
pub fn schedule_fits_check(mapping: &RetryMapping, retry_count: i32) -> (fits: bool)
    ensures
        fits == schedule_fits(*mapping, retry_count as int),
{
    retry_count == 0 || delay_fits_check(retry_count, &mapping.count, &mapping.frequency)
}

/// `get_schedule_time` for any retry number: `None` where the walk of the
/// merchant's schedule would leave `i32`, else the delay.
pub fn get_schedule_time_checked(mapping: ConnectorPTMapping, merchant_name: &str, retry_count: i32)
    -> (delay: Option<Option<i32>>)
    ensures
        delay is Some <==> schedule_fits(merchant_mapping(mapping, merchant_name@), retry_count as int),
        delay matches Some(d) ==> d == schedule_time_spec(merchant_mapping(mapping, merchant_name@), retry_count as int),
{
    let name = String::from_str(merchant_name);
    let idx = find_merchant(&mapping.custom_merchant_mapping, &name);
    proof {
        lemma_last_entry_wins(mapping.custom_merchant_mapping@, name@);
    }
    let selected = match idx {
        Some(i) => &mapping.custom_merchant_mapping[i].1,
        None => &mapping.default_mapping,
    };
    if schedule_fits_check(selected, retry_count) {
        Some(schedule_time_for(selected, retry_count))
    } else {
        None
    }
}

/// `get_pm_schedule_time` for any retry number: `None` where the walk of
/// the payment method's schedule would leave `i32`, else the delay.
pub fn get_pm_schedule_time_checked(mapping: PaymentMethodsPTMapping, pm: &PaymentMethod, retry_count: i32)
    -> (delay: Option<Option<i32>>)
    ensures
        delay is Some <==> schedule_fits(pm_mapping(mapping, *pm), retry_count as int),
        delay matches Some(d) ==> d == schedule_time_spec(pm_mapping(mapping, *pm), retry_count as int),
{
    let idx = find_payment_method(&mapping.custom_pm_mapping, *pm);
    proof {
        lemma_last_entry_wins(mapping.custom_pm_mapping@, *pm);
    }
    let selected = match idx {
        Some(i) => &mapping.custom_pm_mapping[i].1,
        None => &mapping.default_mapping,
    };
    if schedule_fits_check(selected, retry_count) {
        Some(schedule_time_for(selected, retry_count))
    } else {
        None
    }
}

/// When the next attempt under a schedule is due: the first retry waits
/// `start_after`; with non-negative counts, a later retry waits the
/// frequency of the first bucket whose running total of counts reaches it,
/// a negative retry number waits the first bucket's frequency, and a retry
/// beyond the total of all counts (or any retry of a schedule without
/// buckets) gets no delay.
pub proof fn lemma_schedule_time_by_bucket(m: RetryMapping, retry: int, k: nat)
    ensures
        schedule_time_spec(m, 0) == Some(m.start_after),
        counts_nonnegative(m.count@, m.frequency@) && k < pair_len(m.count@, m.frequency@)
            && count_prefix(m.count@, k as int) < retry <= count_prefix(m.count@, (k + 1) as int)
            ==> schedule_time_spec(m, retry) == Some(m.frequency@[k as int]),
        counts_nonnegative(m.count@, m.frequency@)
            && retry > count_prefix(m.count@, pair_len(m.count@, m.frequency@))
            ==> schedule_time_spec(m, retry) is None,
        counts_nonnegative(m.count@, m.frequency@) && retry < 0 && pair_len(m.count@, m.frequency@) > 0
            ==> schedule_time_spec(m, retry) == Some(m.frequency@[0]),
        retry != 0 && pair_len(m.count@, m.frequency@) == 0 ==> schedule_time_spec(m, retry) is None,
{
    let counts = m.count@;
    let freqs = m.frequency@;
    if counts_nonnegative(counts, freqs) && k < pair_len(counts, freqs)
        && count_prefix(counts, k as int) < retry <= count_prefix(counts, (k + 1) as int) {
        lemma_prefix_monotone(counts, freqs, 0, k as int);
        lemma_retry_falls_into_its_bucket(retry, counts, freqs, k);
    }
    if counts_nonnegative(counts, freqs) && retry > count_prefix(counts, pair_len(counts, freqs)) {
        lemma_prefix_monotone(counts, freqs, 0, pair_len(counts, freqs));
        lemma_retries_exhausted(retry, counts, freqs);
    }
}

} // verus!
