//! Render configuration: the values read from the command line, the defaults
//! that stand in for those not given, and the checks a render needs.
use vstd::prelude::*;
use crate::chunk::buffer_len_spec;
use crate::chunk::buffer_len;

verus! {

pub const DEFAULT_THREAD_COUNT: usize = 8;

pub const DEFAULT_CHUNK_COUNT: usize = 100;

pub const DEFAULT_SAMPLE_COUNT: usize = 300;

pub const DEFAULT_OUTPUT_WIDTH: usize = 400;

pub const DEFAULT_OUTPUT_HEIGHT: usize = 200;

pub const DEFAULT_OUTPUT_IMAGE: &'static str = "output.ppm";

/// The option values given on the command line, each `None` where the option
/// was left out or its value could not be read.
pub struct ArgValues {
    pub thread_count: Option<usize>,
    pub chunk_count: Option<usize>,
    pub sample_count: Option<usize>,
    pub scene: Option<String>,
    pub output_image: Option<String>,
    pub output_width: Option<usize>,
    pub output_height: Option<usize>,
}

/// Settings of one render.
pub struct Config {
    pub thread_count: usize,
    pub chunk_count: usize,
    pub sample_count: usize,
    pub scene: String,
    pub output_image: String,
    pub output_size: (usize, usize),
}

/// Why a configuration cannot be rendered.
#[derive(Clone, Copy, Debug, PartialEq, Eq, Structural)]
pub enum ConfigError {
    /// The worker pool would have no thread.
    NoThreads,
    /// The buffer would be cut into no chunk.
    NoChunks,
    /// A pixel would get no sample.
    NoSamples,
    /// The image would have no pixel.
    EmptyImage,
    /// The pixel buffer would not fit in memory addresses.
    ImageTooLarge,
}

/// The value given, or `default` where none was.
pub open spec fn given_or(value: Option<usize>, default: usize) -> usize {
    match value {
        Some(v) => v,
        None => default,
    }
}

/// The text given, or `default` where none was.
pub open spec fn text_or(value: Option<String>, default: Seq<char>) -> Seq<char> {
    match value {
        Some(s) => s@,
        None => default,
    }
}

fn usize_or(value: Option<usize>, default: usize) -> (r: usize)
    ensures
        r == given_or(value, default),
{
    match value {
        Some(v) => v,
        None => default,
    }
}

impl Clone for Config {
    fn clone(&self) -> (r: Config)
        ensures
            r == *self,
    {
        Config {
            thread_count: self.thread_count,
            chunk_count: self.chunk_count,
            sample_count: self.sample_count,
            scene: self.scene.clone(),
            output_image: self.output_image.clone(),
            output_size: (self.output_size.0, self.output_size.1),
        }
    }
}

impl Config {
    /// The configuration that the given option values ask for, with the
    /// defaults for those left out: 8 threads, 100 chunks, 300 samples per
    /// pixel, no scene name, `output.ppm`, 400 by 200 pixels.
    pub fn new(matches: ArgValues) -> (r: Config)
        ensures
            r.thread_count == given_or(matches.thread_count, DEFAULT_THREAD_COUNT),
            r.chunk_count == given_or(matches.chunk_count, DEFAULT_CHUNK_COUNT),
            r.sample_count == given_or(matches.sample_count, DEFAULT_SAMPLE_COUNT),
            r.scene@ == text_or(matches.scene, Seq::empty()),
            r.output_image@ == text_or(matches.output_image, DEFAULT_OUTPUT_IMAGE@),
            r.output_size.0 == given_or(matches.output_width, DEFAULT_OUTPUT_WIDTH),
            r.output_size.1 == given_or(matches.output_height, DEFAULT_OUTPUT_HEIGHT),
    {
        let scene = match matches.scene {
            Some(s) => s,
            None => String::new(),
        };
        let output_image = match matches.output_image {
            Some(s) => s,
            None => DEFAULT_OUTPUT_IMAGE.to_owned(),
        };
        Config {
            thread_count: usize_or(matches.thread_count, DEFAULT_THREAD_COUNT),
            chunk_count: usize_or(matches.chunk_count, DEFAULT_CHUNK_COUNT),
            sample_count: usize_or(matches.sample_count, DEFAULT_SAMPLE_COUNT),
            scene,
            output_image,
            output_size: (
                usize_or(matches.output_width, DEFAULT_OUTPUT_WIDTH),
                usize_or(matches.output_height, DEFAULT_OUTPUT_HEIGHT),
            ),
        }
    }

    /// The first of the configuration's faults, in the order threads, chunks,
    /// samples, image size, buffer size; `None` where it has none.
    pub open spec fn fault(&self) -> Option<ConfigError> {
        if self.thread_count == 0 {
            Some(ConfigError::NoThreads)
        } else if self.chunk_count == 0 {
            Some(ConfigError::NoChunks)
        } else if self.sample_count == 0 {
            Some(ConfigError::NoSamples)
        } else if self.output_size.0 == 0 || self.output_size.1 == 0 {
            Some(ConfigError::EmptyImage)
        } else if buffer_len_spec(self.output_size.0 as int, self.output_size.1 as int)
            > usize::MAX {
            Some(ConfigError::ImageTooLarge)
        } else {
            None
        }
    }

    /// Checks that a render with this configuration is well defined: at least
    /// one thread, chunk and sample, an image with pixels, and a buffer that fits.
    pub fn validate(&self) -> (r: Result<(), ConfigError>)
        ensures
            match self.fault() {
                Some(e) => r == Err::<(), ConfigError>(e),
                None => r is Ok,
            },
    {
        if self.thread_count == 0 {
            return Err(ConfigError::NoThreads);
        }
        if self.chunk_count == 0 {
            return Err(ConfigError::NoChunks);
        }
        if self.sample_count == 0 {
            return Err(ConfigError::NoSamples);
        }
        if self.output_size.0 == 0 || self.output_size.1 == 0 {
            return Err(ConfigError::EmptyImage);
        }
        match buffer_len(self.output_size.0, self.output_size.1) {
            Some(_) => Ok(()),
            None => Err(ConfigError::ImageTooLarge),
        }
    }
}

} // verus!
