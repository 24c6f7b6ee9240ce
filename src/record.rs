use vstd::prelude::*;

verus! {

/// What one automation attempt produced. It is never changed once created.
#[derive(Debug, Clone)]
pub struct ActionRecord {
    pub id: String,
    pub prompt: String,
    pub actions: Vec<String>,
    pub success: bool,
    /// Wall-clock duration of the attempt, in whole milliseconds.
    pub duration_ms: u64,
    pub timestamp: String,
    pub screenshots: Vec<String>,
}

/// The mathematical content of an `ActionRecord`.
pub ghost struct RecordView {
    pub id: Seq<char>,
    pub prompt: Seq<char>,
    pub actions: Seq<Seq<char>>,
    pub success: bool,
    pub duration_ms: nat,
    pub timestamp: Seq<char>,
    pub screenshots: Seq<Seq<char>>,
}

/// The characters of each string in `v`.
pub open spec fn strings_view(v: Seq<String>) -> Seq<Seq<char>> {
    v.map_values(|s: String| s@)
}

impl View for ActionRecord {
    type V = RecordView;

    open spec fn view(&self) -> RecordView {
        RecordView {
            id: self.id@,
            prompt: self.prompt@,
            actions: strings_view(self.actions@),
            success: self.success,
            duration_ms: self.duration_ms as nat,
            timestamp: self.timestamp@,
            screenshots: strings_view(self.screenshots@),
        }
    }
}

/// An independent copy of a list of strings.
fn copy_strings(v: &Vec<String>) -> (r: Vec<String>)
    ensures
        r@ == v@,
{
    let mut r: Vec<String> = Vec::new();
    let mut i: usize = 0;
    while i < v.len()
        invariant
            i <= v@.len(),
            r@ == v@.subrange(0, i as int),
        decreases v@.len() - i,
    {
        r.push(v[i].clone());
        i = i + 1;
    }
    assert(r@ =~= v@);
    r
}

impl ActionRecord {
    pub fn new(
        id: String,
        prompt: String,
        actions: Vec<String>,
        success: bool,
        duration_ms: u64,
        timestamp: String,
        screenshots: Vec<String>,
    ) -> (r: ActionRecord)
        ensures
            r.id == id,
            r.prompt == prompt,
            r.actions == actions,
            r.success == success,
            r.duration_ms == duration_ms,
            r.timestamp == timestamp,
            r.screenshots == screenshots,
    {
        ActionRecord { id, prompt, actions, success, duration_ms, timestamp, screenshots }
    }

    /// An independent copy of this record, equal to it in every field.
    pub fn duplicate(&self) -> (r: ActionRecord)
        ensures
            r@ == self@,
    {
        ActionRecord {
            id: self.id.clone(),
            prompt: self.prompt.clone(),
            actions: copy_strings(&self.actions),
            success: self.success,
            duration_ms: self.duration_ms,
            timestamp: self.timestamp.clone(),
            screenshots: copy_strings(&self.screenshots),
        }
    }
}

} // verus!
