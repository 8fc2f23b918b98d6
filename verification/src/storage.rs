//! Public links to the objects of a storage bucket.

use vstd::prelude::*;
use vstd::string::StringExecFns;

verus! {

/// A storage bucket and the address of the service that holds it.
#[derive(Debug, Clone)]
pub struct Storage {
    pub bucket_id: String,
    pub supabase_url: String,
}

impl Storage {
    /// The bucket `bucket_id` of the service at `supabase_url`.
    pub fn new(bucket_id: &str, supabase_url: &str) -> (storage: Storage)
        ensures
            storage.bucket_id@ == bucket_id@,
            storage.supabase_url@ == supabase_url@,
    {
        Storage { bucket_id: bucket_id.to_owned(), supabase_url: supabase_url.to_owned() }
    }
}

/// An object of a bucket, as the storage service lists it.
#[derive(Debug)]
pub struct Object {
    pub name: String,
    pub bucket_id: String,
}

/// The public address of the object `name` in the bucket `bucket_id` of the
/// service at `supabase_url`.
pub open spec fn public_link(supabase_url: Seq<char>, bucket_id: Seq<char>, name: Seq<char>) -> Seq<
    char,
> {
    supabase_url + "/storage/v1/object/public/"@ + bucket_id + "/"@ + name
}

impl Object {
    /// The public address of this object in the bucket of `storage_data`.
    /// The bucket is the one that `storage_data` names, whatever the object
    /// itself says of its bucket.
    pub fn to_link(&self, storage_data: &Storage) -> (link: String)
        ensures
            link@ == public_link(storage_data.supabase_url@, storage_data.bucket_id@, self.name@),
    {
        let mut link = storage_data.supabase_url.clone();
        link.append("/storage/v1/object/public/");
        link.append(storage_data.bucket_id.as_str());
        link.append("/");
        link.append(self.name.as_str());
        link
    }
}

} // verus!
