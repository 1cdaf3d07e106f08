use vstd::prelude::*;

verus! {

/// User-facing metadata of one native window.
#[derive(Debug)]
pub struct WindowInfo {
    pub hwnd: isize,
    pub title: String,
    pub class_name: Option<String>,
    pub process_id: Option<u32>,
}

impl Clone for WindowInfo {
    fn clone(&self) -> (r: Self)
        ensures
            r == *self,
    {
        WindowInfo {
            hwnd: self.hwnd,
            title: self.title.clone(),
            class_name: match &self.class_name {
                Some(name) => Some(name.clone()),
                None => None,
            },
            process_id: self.process_id,
        }
    }
}

} // verus!
